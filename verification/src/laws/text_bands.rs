//! What looking for lines of text comes to.
use vstd::prelude::*;
use crate::pixels::Pixbuf;
use crate::text_bands::{
    edge_count, image_rows, is_anchor, is_detected, is_run, is_text_run, local_window, row_is_text,
    sample_count, window_rows, BandState, TextBand, TEXT_DENSITY_PERCENT,
};
use crate::units::UNIT;

verus! {

/// Byte `c` of the pixel in column `x` of row `y`.
pub open spec fn byte_at(img: &Pixbuf, x: int, y: int, c: int) -> int {
    img.pixels@[y * img.rowstride + x * (if img.has_alpha {
        4int
    } else {
        3
    }) + c] as int
}

/// The luminance of a pixel, out of 255.
pub open spec fn brightness(img: &Pixbuf, x: int, y: int) -> int {
    (299 * byte_at(img, x, y, 0) + 587 * byte_at(img, x, y, 1) + 114 * byte_at(img, x, y, 2)) / 1000
}

/// Row `y` changes by 22 or more between column `x` and the second next.
pub open spec fn jumps(img: &Pixbuf, x: int, y: int) -> bool {
    let d = brightness(img, x, y) - brightness(img, x + 2, y);
    d >= 22 || d <= -22
}

/// The sampled columns of row `y` at which it jumps: every fourth of the
/// columns from `x0` on.
pub open spec fn jump_columns(img: &Pixbuf, y: int, x0: int, n: nat) -> Set<int> {
    Set::new(|x: int| x0 <= x < x0 + 4 * n && (x - x0) % 4 == 0 && jumps(img, x, y))
}

/// A row is text-like exactly when it jumps at three or more of every hundred
/// sampled columns. A row without samples is not.
pub proof fn lemma_text_rows_are_busy(img: &Pixbuf, y: int, x0: int, n: nat)
    ensures
        TEXT_DENSITY_PERCENT == 3,
        jump_columns(img, y, x0, n).finite(),
        jump_columns(img, y, x0, n).len() <= n,
        n > 0 ==> (row_is_text(img, y, x0, n) <==> jump_columns(img, y, x0, n).len() * 100 >= 3 * n),
        n == 0 ==> !row_is_text(img, y, x0, n),
{
    lemma_jumps_are_counted(img, y, x0, n);
}

proof fn lemma_jumps_are_counted(img: &Pixbuf, y: int, x0: int, n: nat)
    ensures
        jump_columns(img, y, x0, n).finite(),
        jump_columns(img, y, x0, n).len() == edge_count(img, y, x0, n),
        edge_count(img, y, x0, n) <= n,
    decreases n,
{
    let all = jump_columns(img, y, x0, n);
    if n == 0 {
        assert(all =~= Set::empty());
    } else {
        let m = (n - 1) as nat;
        lemma_jumps_are_counted(img, y, x0, m);
        let before = jump_columns(img, y, x0, m);
        let last = x0 + 4 * m;
        if jumps(img, last, y) {
            assert(all =~= before.insert(last));
        } else {
            assert(all =~= before);
        }
    }
}

/// The samples of the columns `x0..end` are every fourth of them, from the
/// first on.
pub proof fn lemma_every_fourth_column(x0: int, end: int, k: int)
    requires
        k >= 0,
    ensures
        k < sample_count(x0, end) <==> x0 + 4 * k < end,
{
}

/// Over the whole image a row is sampled in every fourth column that has a
/// second next one.
pub proof fn lemma_image_rows_are_busy(img: &Pixbuf, y: int, n: nat)
    requires
        0 <= y < img.height,
        img.width > 2,
        4 * (n - 1) + 2 < img.width <= 4 * n + 2,
    ensures
        image_rows(img).len() == img.height,
        image_rows(img)[y] <==> jump_columns(img, y, 0, n).len() * 100 >= 3 * n,
{
    lemma_text_rows_are_busy(img, y, 0, n);
    assert(sample_count(0, img.width - 2) == n);
}

/// A line of text is six to sixty rows high and begins and ends with a
/// text-like row. Seven plain rows in a row bound it on both sides; nowhere
/// inside are there as many.
pub proof fn lemma_lines_of_text(rows: Seq<bool>, s: int, e: int)
    ensures
        is_text_run(rows, s, e) <==> {
            &&& 0 <= s < e <= rows.len()
            &&& 6 <= e - s <= 60
            &&& rows[s] && rows[e - 1]
            &&& forall|j: int| s - 7 <= j < s && 0 <= j ==> !#[trigger] rows[j]
            &&& forall|j: int| e <= j < e + 7 && j < rows.len() ==> !#[trigger] rows[j]
            &&& forall|k: int|
                s <= k <= e - 7 ==> #[trigger] some_row(rows, k) || rows[k + 1] || rows[k + 2]
                    || rows[k + 3] || rows[k + 4] || rows[k + 5] || rows[k + 6]
        },
{
    let g: int = 7;
    let inside = forall|k: int|
        s <= k <= e - 7 ==> #[trigger] some_row(rows, k) || rows[k + 1] || rows[k + 2] || rows[k
            + 3] || rows[k + 4] || rows[k + 5] || rows[k + 6];
    if 0 <= s < e <= rows.len() {
        assert forall|k: int| s <= k <= e - 7 implies crate::text_bands::has_text(rows, k, k + 7)
            == (some_row(rows, k) || rows[k + 1] || rows[k + 2] || rows[k + 3] || rows[k + 4]
            || rows[k + 5] || rows[k + 6]) by {
            if crate::text_bands::has_text(rows, k, k + 7) {
                let j = choose|j: int| k <= j < k + 7 && 0 <= j < rows.len() && #[trigger] rows[j];
                assert(j == k || j == k + 1 || j == k + 2 || j == k + 3 || j == k + 4 || j == k + 5
                    || j == k + 6);
            }
            if some_row(rows, k) {
                assert(rows[k]);
            }
        }
        if is_run(rows, s, e) {
            assert forall|k: int| s <= k <= e - 7 implies #[trigger] some_row(rows, k) || rows[k
                + 1] || rows[k + 2] || rows[k + 3] || rows[k + 4] || rows[k + 5] || rows[k + 6] by {
                assert(crate::text_bands::has_text(rows, k, k + 6 + 1));
            }
        }
        if inside {
            assert forall|k: int| s <= k && k + 6 < e implies #[trigger] crate::text_bands::has_text(
                rows,
                k,
                k + 6 + 1,
            ) by {
                assert(some_row(rows, k) || rows[k + 1] || rows[k + 2] || rows[k + 3] || rows[k + 4]
                    || rows[k + 5] || rows[k + 6]);
            }
        }
    }
}

/// Row `k` is text-like.
pub open spec fn some_row(rows: Seq<bool>, k: int) -> bool {
    rows[k]
}

/// Text-like rows with six plain ones or fewer between them belong together.
pub proof fn lemma_close_rows_share_a_run(rows: Seq<bool>, s: int, e: int, a: int, b: int)
    requires
        is_run(rows, s, e),
        s <= a < e,
        0 <= b < rows.len(),
        rows[b],
        -7 <= a - b <= 7,
    ensures
        s <= b < e,
{
    if b < s {
        assert(crate::text_bands::has_text(rows, s - 6 - 1, s));
    }
    if b >= e {
        assert(crate::text_bands::has_text(rows, e, e + 6 + 1));
    }
}

/// A band covers its rows from the top of the first to the bottom of the last.
pub proof fn lemma_bands_cover_their_rows(s: int, e: int)
    requires
        0 <= s <= e <= i32::MAX,
    ensures
        TextBand::of_rows(s, e).y_start == s * 65536,
        TextBand::of_rows(s, e).y_end == e * 65536,
{
}

/// `c` is the whole pixel nearest to `v`.
pub open spec fn nearest_pixel(c: int, v: int) -> bool {
    2 * c * 65536 - 65536 <= 2 * v < 2 * c * 65536 + 65536
}

/// Around the pointer, the rows at most 85 away are looked at, on the columns
/// at most 80 away, as far as the image goes.
pub proof fn lemma_window_reaches_around_pointer(
    img: &Pixbuf,
    x: int,
    y: int,
    cx: int,
    cy: int,
    col: int,
    row: int,
)
    requires
        img.wf(),
        0 <= x < img.width * UNIT,
        0 <= y < img.height * UNIT,
        nearest_pixel(cx, x),
        nearest_pixel(cy, y),
    ensures
        ({
            let w = local_window(img, x, y);
            &&& w.x0 <= col < w.x_end <==> 0 <= col && col + 2 < img.width && cx - 80 <= col <= cx
                + 80
            &&& w.y0 <= row < w.y_end <==> 0 <= row < img.height && cy - 85 <= row <= cy + 85
        }),
{
}

/// A row of the window counts as text-like by the samples of its columns.
pub proof fn lemma_window_rows_are_busy(img: &Pixbuf, x: int, y: int, i: int, n: nat)
    requires
        ({
            let w = local_window(img, x, y);
            0 <= i < w.y_end - w.y0 && w.x0 + 4 * (n - 1) < w.x_end <= w.x0 + 4 * n && n > 0
        }),
    ensures
        ({
            let w = local_window(img, x, y);
            window_rows(img, w)[i] <==> jump_columns(img, w.y0 + i, w.x0, n).len() * 100 >= 3 * n
        }),
{
    let w = local_window(img, x, y);
    lemma_text_rows_are_busy(img, w.y0 + i, w.x0, n);
    assert(sample_count(w.x0, w.x_end) == n);
}

/// The row that the pointer is held to is at most 25 rows away; no text-like
/// row is nearer, and one as near lies above.
pub proof fn lemma_anchor_is_nearest(rows: Seq<bool>, c: int, a: int, j: int)
    requires
        is_anchor(rows, c, a),
        0 <= j < rows.len(),
        rows[j],
        j != a,
    ensures
        0 <= a < rows.len() && rows[a],
        c - 25 <= a <= c + 25,
        a >= c ==> j > a || j <= c - (a - c),
        a < c ==> j < a || j > c + (c - a),
{
}

/// A remembered band is reported again, and stays remembered, exactly while
/// the pointer is within 60 pixels of the column where it was found and not
/// more than 20 pixels above or below it.
pub proof fn lemma_remembered_band_is_kept(
    before: &BandState,
    x: int,
    y: int,
    r: Option<TextBand>,
    after: &BandState,
)
    requires
        is_detected(before, x, y, r, after),
        before.cache is Some,
        before.cache->0.band.y_start <= before.cache->0.band.y_end,
        before.cache->0.cache_x - 60 * UNIT <= x <= before.cache->0.cache_x + 60 * UNIT,
        before.cache->0.band.y_start - 20 * UNIT <= y <= before.cache->0.band.y_end + 20 * UNIT,
    ensures
        r == Some(before.cache->0.band),
        after.cache == before.cache,
{
}

/// Further away it is looked for again, and what is found, if anything, is
/// remembered with the column of the pointer.
pub proof fn lemma_left_band_is_forgotten(
    before: &BandState,
    x: int,
    y: int,
    r: Option<TextBand>,
    after: &BandState,
)
    requires
        is_detected(before, x, y, r, after),
        i64::MIN <= x <= i64::MAX,
        before.cache matches Some(c) ==> x < c.cache_x - 60 * UNIT || x > c.cache_x + 60 * UNIT || y
            < c.band.y_start - 20 * UNIT || y > c.band.y_end + 20 * UNIT,
        before.cache matches Some(c) ==> c.band.y_start <= c.band.y_end,
    ensures
        before.image is None ==> r is None,
        r is None ==> after.cache is None,
        r matches Some(b) ==> {
            &&& after.cache is Some
            &&& after.cache->0.band == b
            &&& after.cache->0.cache_x == x
        },
{
}

} // verus!
