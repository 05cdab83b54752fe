//! What the functions of looking for lines of text give back.
use vstd::prelude::*;
use crate::laws::text_bands::{jump_columns, nearest_pixel, some_row};
use crate::pixels::Pixbuf;
use crate::text_bands::{
    detect, detect_local_band, detect_local_band_uncached, group_rows, image_rows, local_window,
    window_rows, BandState, TextBand, TEXT_DENSITY_PERCENT,
};
use crate::units::UNIT;

verus! {

/// Row `y` of an image jumps at as many of every hundred sampled columns as a
/// row of text does, or more. `n` columns are sampled.
pub open spec fn is_busy(img: &Pixbuf, y: int, x0: int, n: nat) -> bool {
    jump_columns(img, y, x0, n).len() * 100 >= TEXT_DENSITY_PERCENT * n
}

/// A band of an image begins and ends with a busy row, is six to sixty rows
/// high, and the rows just outside are not busy.
pub proof fn lemma_detect(img: Pixbuf, bands: Vec<TextBand>, k: int, n: nat, y: int)
    requires
        img.width > 2,
        img.wf(),
        4 * (n - 1) + 2 < img.width <= 4 * n + 2,
        call_ensures(detect, (&img,), bands),
        0 <= k < bands@.len(),
        0 <= y < img.height,
    ensures
        TEXT_DENSITY_PERCENT == 3,
        ({
            let b = bands@[k];
            let (top, end) = (b.y_start as int / 65536, b.y_end as int / 65536);
            &&& b.y_start == top * 65536 && b.y_end == end * 65536
            &&& 0 <= top && end <= img.height
            &&& 6 <= end - top <= 60
            &&& y == top || y == end - 1 ==> is_busy(&img, y, 0, n)
            &&& top - 7 <= y < top || end <= y < end + 7 ==> !is_busy(&img, y, 0, n)
        }),
{
    let rows = image_rows(&img);
    crate::laws::text_bands::lemma_image_rows_are_busy(&img, y, n);
    let runs = choose|runs: Seq<(usize, usize)>| #[trigger]
        crate::text_bands::lists_text_runs(rows, runs) && bands@ == runs.map_values(
            |r: (usize, usize)| TextBand::of_rows(r.0 as int, r.1 as int),
        );
    let (s, e) = (runs[k].0 as int, runs[k].1 as int);
    assert(bands@[k] == TextBand::of_rows(s, e));
    crate::laws::text_bands::lemma_lines_of_text(rows, s, e);
    crate::laws::text_bands::lemma_bands_cover_their_rows(s, e);
    assert(s * 65536 / 65536 == s && e * 65536 / 65536 == e);
}

/// Every line of text of an image is found, and the bands go from the top
/// down.
pub proof fn lemma_detect_finds(img: Pixbuf, bands: Vec<TextBand>, n: nat, s: int, e: int)
    requires
        img.width > 2,
        img.wf(),
        4 * (n - 1) + 2 < img.width <= 4 * n + 2,
        call_ensures(detect, (&img,), bands),
        0 <= s < e <= img.height,
        6 <= e - s <= 60,
        forall|y: int| s <= y < e ==> #[trigger] is_busy(&img, y, 0, n),
        forall|y: int|
            s - 7 <= y < s && 0 <= y || e <= y < e + 7 && y < img.height ==> !#[trigger] is_busy(
                &img,
                y,
                0,
                n,
            ),
    ensures
        exists|k: int|
            0 <= k < bands@.len() && (#[trigger] bands@[k]).y_start == s * 65536 && bands@[k].y_end
                == e * 65536,
        forall|i: int, j: int| 0 <= i < j < bands@.len() ==> bands@[i].y_end < bands@[j].y_start,
{
    let rows = image_rows(&img);
    assert forall|y: int| 0 <= y < img.height implies #[trigger] rows[y] == is_busy(
        &img,
        y,
        0,
        n,
    ) by {
        crate::laws::text_bands::lemma_image_rows_are_busy(&img, y, n);
    }
    crate::laws::text_bands::lemma_image_rows_are_busy(&img, s, n);
    let runs = choose|runs: Seq<(usize, usize)>| #[trigger]
        crate::text_bands::lists_text_runs(rows, runs) && bands@ == runs.map_values(
            |r: (usize, usize)| TextBand::of_rows(r.0 as int, r.1 as int),
        );
    assert(is_busy(&img, s, 0, n) && is_busy(&img, e - 1, 0, n));
    assert forall|k: int| s <= k <= e - 7 implies #[trigger] some_row(rows, k) by {
        assert(is_busy(&img, k, 0, n));
    }
    crate::laws::text_bands::lemma_lines_of_text(rows, s, e);
    assert(crate::text_bands::is_text_run(rows, s, e));
    let k = choose|k: int| 0 <= k < runs.len() && (#[trigger] runs[k]).0 == s && runs[k].1 == e;
    crate::laws::text_bands::lemma_bands_cover_their_rows(s, e);
    assert(bands@[k] == TextBand::of_rows(s, e));
    assert forall|i: int, j: int| 0 <= i < j < bands@.len() implies bands@[i].y_end
        < bands@[j].y_start by {
        let (a, b) = (runs[i], runs[j]);
        assert(bands@[i] == TextBand::of_rows(a.0 as int, a.1 as int));
        assert(bands@[j] == TextBand::of_rows(b.0 as int, b.1 as int));
        crate::laws::text_bands::lemma_lines_of_text(rows, a.0 as int, a.1 as int);
        crate::laws::text_bands::lemma_lines_of_text(rows, b.0 as int, b.1 as int);
        crate::laws::text_bands::lemma_bands_cover_their_rows(a.0 as int, a.1 as int);
        crate::laws::text_bands::lemma_bands_cover_their_rows(b.0 as int, b.1 as int);
    }
}

/// Rows are grouped into runs of six to sixty that begin and end text-like
/// and have seven plain rows on both sides, from the top down.
pub proof fn lemma_group_rows(rows: Vec<bool>, bands: Vec<(usize, usize)>, k: int, j: int)
    requires
        call_ensures(group_rows, (&rows,), bands),
        0 <= k < bands@.len(),
        0 <= j < rows@.len(),
    ensures
        ({
            let (s, e) = bands@[k];
            &&& s < e <= rows@.len()
            &&& 6 <= e - s <= 60
            &&& rows@[s as int] && rows@[e - 1]
            &&& s - 7 <= j < s || e <= j < e + 7 ==> !rows@[j]
            &&& k + 1 < bands@.len() ==> e + 7 <= bands@[k + 1].0
        }),
{
    let (s, e) = (bands@[k].0 as int, bands@[k].1 as int);
    crate::laws::text_bands::lemma_lines_of_text(rows@, s, e);
    if k + 1 < bands@.len() {
        let (a, b) = (bands@[k + 1].0 as int, bands@[k + 1].1 as int);
        crate::laws::text_bands::lemma_lines_of_text(rows@, a, b);
        assert(rows@[a]);
    }
}

/// The band at a place has the busy row nearest to it, at most 25 rows away,
/// and begins and ends with a busy row.
pub proof fn lemma_local_band(
    img: Pixbuf,
    x: i64,
    y: i64,
    b: TextBand,
    cx: int,
    cy: int,
    n: nat,
    row: int,
)
    requires
        img.wf(),
        img.width > 200,
        img.height > 200,
        80 <= cx,
        cx + 83 < img.width,
        85 <= cy < img.height - 86,
        nearest_pixel(cx, x as int),
        nearest_pixel(cy, y as int),
        n == 41,
        cy - 85 <= row <= cy + 85,
        call_ensures(detect_local_band_uncached, (&img, x, y), Some(b)),
    ensures
        ({
            let (top, end) = (b.y_start as int / 65536, b.y_end as int / 65536);
            let busy = is_busy(&img, row, cx - 80, n);
            &&& cy - 85 <= top && end <= cy + 86
            &&& 6 <= end - top <= 60
            &&& top - 25 <= cy <= end - 1 + 25
            &&& row == top || row == end - 1 ==> busy
            &&& top - 7 <= row < top || end <= row < end + 7 ==> !busy
            &&& cy < top ==> (cy - (top - cy) < row < top ==> !busy)
            &&& cy >= end ==> (end <= row <= cy + (cy - end) ==> !busy)
        }),
{
    let w = local_window(&img, x as int, y as int);
    let rows = window_rows(&img, w);
    assert(w.x0 == cx - 80 && w.x_end == cx + 81 && w.y0 == cy - 85 && w.y_end == cy + 86);
    let c = cy - w.y0;
    let i = row - w.y0;
    crate::laws::text_bands::lemma_window_rows_are_busy(&img, x as int, y as int, i, n);
    let (s, e) = choose|s: int, e: int| #[trigger]
        crate::text_bands::is_local_run(rows, c, s, e) && b == TextBand::of_rows(
            w.y0 + s,
            w.y0 + e,
        );
    crate::laws::text_bands::lemma_lines_of_text(rows, s, e);
    let a = choose|a: int| #[trigger] crate::text_bands::is_anchor(rows, c, a) && s <= a < e;
    crate::laws::text_bands::lemma_bands_cover_their_rows(w.y0 + s, w.y0 + e);
    assert((w.y0 + s) * 65536 / 65536 == w.y0 + s && (w.y0 + e) * 65536 / 65536 == w.y0 + e);
    assert(rows[s] && rows[e - 1]);
    assert(rows[i] == is_busy(&img, row, cx - 80, n));
    if rows[i] && i != a {
        crate::laws::text_bands::lemma_anchor_is_nearest(rows, c, a, i);
    }
    if s != a {
        crate::laws::text_bands::lemma_anchor_is_nearest(rows, c, a, s);
    }
    if e - 1 != a {
        crate::laws::text_bands::lemma_anchor_is_nearest(rows, c, a, e - 1);
    }
}

/// A band that was found is reported again while the pointer stays near it.
pub proof fn lemma_remembered_band(
    s: &mut BandState,
    u: &mut BandState,
    x: i64,
    y: i64,
    x2: i64,
    y2: i64,
    b: TextBand,
    r: Option<TextBand>,
)
    requires
        old(s).cache is None,
        call_ensures(detect_local_band, (s, x, y), Some(b)),
        *final(s) == *old(u),
        x - 60 * UNIT <= x2 <= x + 60 * UNIT,
        b.y_start - 20 * UNIT <= y2 <= b.y_end + 20 * UNIT,
        call_ensures(detect_local_band, (u, x2, y2), r),
    ensures
        r == Some(b),
        *final(u) == *old(u),
{
    let (first, second, last) = (*old(s), *old(u), *final(u));
    crate::laws::text_bands::lemma_left_band_is_forgotten(
        &first,
        x as int,
        y as int,
        Some(b),
        &second,
    );
    crate::laws::text_bands::lemma_remembered_band_is_kept(
        &second,
        x2 as int,
        y2 as int,
        r,
        &last,
    );
}

/// Further to the side, what was remembered does not count any more.
pub proof fn lemma_band_without_image(
    s: &mut BandState,
    x: i64,
    y: i64,
    r: Option<TextBand>,
)
    requires
        old(s).image is None,
        old(s).cache matches Some(c) ==> x > c.cache_x + 60 * UNIT || x < c.cache_x - 60 * UNIT,
        call_ensures(detect_local_band, (s, x, y), r),
    ensures
        r is None,
        final(s).cache is None,
{
}

/// The middle, the height and the rows of a band.
pub proof fn lemma_band_measures(b: TextBand, mid: i64, h: i64, y: i64, r: bool)
    requires
        b.y_start <= b.y_end,
        call_ensures(TextBand::center_y, (&b,), mid),
        call_ensures(TextBand::height, (&b,), h),
        call_ensures(TextBand::contains_y, (&b, y), r),
    ensures
        b.y_start + h == b.y_end,
        0 <= (mid - b.y_start) - (b.y_end - mid) + 1 <= 1,
        r <==> b.y_start <= y && y < b.y_end,
{
}

} // verus!
