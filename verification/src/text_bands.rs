//! Heuristic detection of horizontal text bands in a screenshot.
use vstd::prelude::*;
use crate::pixels::Pixbuf;
use crate::units::{coord_ok, round_px, round_px_spec, UNIT};

verus! {

/// Brightness delta (out of 255) between two horizontally spaced samples
/// that counts as a glyph edge.
pub const EDGE_DELTA: i32 = 22;

/// Horizontal distance between the two samples whose luminance is compared.
pub const EDGE_SAMPLE_STRIDE: u32 = 2;

/// Every `COL_STRIDE`-th column of a row is sampled.
pub const COL_STRIDE: u32 = 4;

/// A row is text-like when at least this many percent of its samples are
/// edges.
pub const TEXT_DENSITY_PERCENT: u32 = 3;

/// Luminance (0..=255) of the pixel `(x, y)`.
pub open spec fn lum_spec(img: &Pixbuf, x: int, y: int) -> int {
    (299 * img.channel(x, y, 0) + 587 * img.channel(x, y, 1) + 114 * img.channel(x, y, 2)) / 1000
}

/// The brightness jumps between `(x, y)` and its partner to the right.
pub open spec fn is_edge(img: &Pixbuf, x: int, y: int) -> bool {
    let d = lum_spec(img, x, y) - lum_spec(img, x + EDGE_SAMPLE_STRIDE, y);
    d >= EDGE_DELTA || -d >= EDGE_DELTA
}

/// How many of the first `n` samples of row `y`, starting at column `x0`,
/// are edges.
pub open spec fn edge_count(img: &Pixbuf, y: int, x0: int, n: nat) -> nat
    decreases n,
{
    if n == 0 {
        0
    } else {
        edge_count(img, y, x0, (n - 1) as nat) + if is_edge(img, x0 + COL_STRIDE * (n - 1), y) {
            1nat
        } else {
            0nat
        }
    }
}

/// Row `y` is text-like over the `n` samples that start at column `x0`.
pub open spec fn row_is_text(img: &Pixbuf, y: int, x0: int, n: nat) -> bool {
    edge_count(img, y, x0, n) * 100 >= TEXT_DENSITY_PERCENT * (if n == 0 {
        1
    } else {
        n
    })
}

/// Number of sampled columns in `x0..end`.
pub open spec fn sample_count(x0: int, end: int) -> nat {
    if end <= x0 {
        0
    } else {
        ((end - x0 + COL_STRIDE - 1) / COL_STRIDE as int) as nat
    }
}

fn lum(img: &Pixbuf, x: u32, y: u32) -> (r: i32)
    requires
        img.wf(),
        x < img.width,
        y < img.height,
    ensures
        r == lum_spec(img, x as int, y as int),
        0 <= r <= 255,
{
    let p: usize = img.offset(x, y);
    let r: i32 = img.pixels[p] as i32;
    let g: i32 = img.pixels[p + 1] as i32;
    let b: i32 = img.pixels[p + 2] as i32;
    (299 * r + 587 * g + 114 * b) / 1000
}

/// Scans one row: is the edge density of the samples in `x0..end` at or
/// above the threshold?
fn scan_row(img: &Pixbuf, y: u32, x0: u32, end: u32) -> (r: bool)
    requires
        img.wf(),
        y < img.height,
        end + EDGE_SAMPLE_STRIDE <= img.width || end <= x0,
    ensures
        r == row_is_text(img, y as int, x0 as int, sample_count(x0 as int, end as int)),
{
    let mut edges: u64 = 0;
    let mut count: u64 = 0;
    let mut x: u64 = x0 as u64;
    while x < end as u64
        invariant
            img.wf(),
            y < img.height,
            end + EDGE_SAMPLE_STRIDE <= img.width || end <= x0,
            x == x0 + COL_STRIDE * count,
            count <= sample_count(x0 as int, end as int),
            edges == edge_count(img, y as int, x0 as int, count as nat),
            edges <= count,
            count <= x,
            x <= u32::MAX + COL_STRIDE,
        decreases end + COL_STRIDE - x,
    {
        let l1: i32 = lum(img, x as u32, y);
        let l2: i32 = lum(img, x as u32 + EDGE_SAMPLE_STRIDE, y);
        if l1 - l2 >= EDGE_DELTA || l2 - l1 >= EDGE_DELTA {
            edges = edges + 1;
        }
        count = count + 1;
        x = x + COL_STRIDE as u64;
    }
    assert(count == sample_count(x0 as int, end as int));
    let denom: u64 = if count == 0 {
        1
    } else {
        count
    };
    edges * 100 >= TEXT_DENSITY_PERCENT as u64 * denom
}

/// How far a highlight reaches beyond its band on each side, in millionths of
/// the height of the band.
pub const BAND_PAD_PER_SIDE: i64 = 50_000;

/// Text rows separated by at most this many plain rows belong to one band.
pub const VERTICAL_MERGE_GAP: usize = 6;

/// Bands shorter than this many rows are dropped (underlines, hairlines).
pub const MIN_BAND_HEIGHT: usize = 6;

/// Bands taller than this many rows are dropped (solid blocks).
pub const MAX_BAND_HEIGHT: usize = 60;

/// Some row of `a..b` is text-like.
pub open spec fn has_text(rows: Seq<bool>, a: int, b: int) -> bool {
    exists|j: int| a <= j < b && 0 <= j < rows.len() && #[trigger] rows[j]
}

/// `s..e` is a maximal run of text rows: it starts and ends on a text row,
/// no stretch of plain rows inside it is longer than the merge gap, and on
/// both sides it is cut off by more plain rows than the merge gap (or by the
/// edge of the image).
pub open spec fn is_run(rows: Seq<bool>, s: int, e: int) -> bool {
    &&& 0 <= s < e <= rows.len()
    &&& rows[s]
    &&& rows[e - 1]
    &&& forall|k: int| s <= k && k + VERTICAL_MERGE_GAP < e ==> #[trigger] has_text(
        rows,
        k,
        k + VERTICAL_MERGE_GAP + 1,
    )
    &&& !has_text(rows, s - VERTICAL_MERGE_GAP - 1, s)
    &&& !has_text(rows, e, e + VERTICAL_MERGE_GAP + 1)
}

/// A run whose height is that of a line of text.
pub open spec fn is_text_run(rows: Seq<bool>, s: int, e: int) -> bool {
    is_run(rows, s, e) && MIN_BAND_HEIGHT <= e - s <= MAX_BAND_HEIGHT
}

/// Two runs that overlap are the same run.
pub proof fn lemma_runs_disjoint(rows: Seq<bool>, s1: int, e1: int, s2: int, e2: int)
    requires
        is_run(rows, s1, e1),
        is_run(rows, s2, e2),
        s1 <= s2 < e1,
    ensures
        s1 == s2,
        e1 == e2,
{
    let g = VERTICAL_MERGE_GAP as int;
    if s1 < s2 {
        if s1 >= s2 - g - 1 {
            assert(has_text(rows, s2 - g - 1, s2)) by {
                assert(rows[s1]);
            }
        } else {
            assert(has_text(rows, s2 - g - 1, s2 - g - 1 + g + 1));
        }
    }
    if e1 < e2 {
        lemma_run_end(rows, s1, e1, e2);
    } else if e2 < e1 {
        lemma_run_end(rows, s1, e2, e1);
    }
}

proof fn lemma_run_end(rows: Seq<bool>, s: int, e1: int, e2: int)
    requires
        is_run(rows, s, e1),
        is_run(rows, s, e2),
    ensures
        e1 >= e2,
{
    let g = VERTICAL_MERGE_GAP as int;
    if e1 < e2 {
        if e2 - 1 < e1 + g + 1 {
            assert(has_text(rows, e1, e1 + g + 1)) by {
                assert(rows[e2 - 1]);
            }
        } else {
            assert(has_text(rows, e1, e1 + g + 1));
        }
    }
}

/// One detected horizontal text band, in image coordinates: `y_start` is the
/// top of its first row, `y_end` the bottom of its last.
#[derive(Clone, Copy, Debug, PartialEq, Eq, Structural)]
pub struct TextBand {
    pub y_start: i64,
    pub y_end: i64,
}

impl TextBand {
    /// Both edges are on an image, the end below the start.
    pub open spec fn wf(&self) -> bool {
        0 <= self.y_start <= self.y_end <= i32::MAX * UNIT
    }

    /// The band that covers the rows `s..e`.
    pub open spec fn of_rows(s: int, e: int) -> TextBand {
        TextBand { y_start: (s * UNIT) as i64, y_end: (e * UNIT) as i64 }
    }

    /// Vertical middle of the band.
    pub fn center_y(&self) -> (r: i64)
        requires
            self.wf(),
        ensures
            r == (self.y_start + self.y_end) / 2,
    {
        (self.y_start + self.y_end) / 2
    }

    /// Vertical extent of the band.
    pub fn height(&self) -> (r: i64)
        requires
            self.wf(),
        ensures
            r == self.y_end - self.y_start,
    {
        self.y_end - self.y_start
    }

    /// True when `y` sits inside this band's vertical extent.
    pub fn contains_y(&self, y: i64) -> (r: bool)
        ensures
            r == (self.y_start <= y < self.y_end),
    {
        y >= self.y_start && y < self.y_end
    }
}

/// `bands` lists, from the top down, exactly the text runs of `rows`.
pub open spec fn lists_text_runs(rows: Seq<bool>, bands: Seq<(usize, usize)>) -> bool {
    &&& forall|i: int|
        0 <= i < bands.len() ==> is_text_run(
            rows,
            (#[trigger] bands[i]).0 as int,
            bands[i].1 as int,
        )
    &&& forall|i: int, j: int| 0 <= i < j < bands.len() ==> bands[i].1 < bands[j].0
    &&& forall|s: int, e: int| #[trigger]
        is_text_run(rows, s, e) ==> exists|i: int|
            0 <= i < bands.len() && (#[trigger] bands[i]).0 == s && bands[i].1 == e
}

/// Groups text rows, bridging small gaps, into the runs whose height is that
/// of a line of text.
pub fn group_rows(rows: &Vec<bool>) -> (bands: Vec<(usize, usize)>)
    ensures
        lists_text_runs(rows@, bands@),
{
    let n: usize = rows.len();
    let mut bands: Vec<(usize, usize)> = Vec::new();
    let mut y: usize = 0;
    let ghost mut pe: int = 0;
    while y < n
        invariant
            n == rows@.len(),
            0 <= pe <= y <= n,
            forall|j: int| pe <= j < y ==> !rows@[j],
            pe == 0 || y == n || y > pe + VERTICAL_MERGE_GAP || (y == pe + VERTICAL_MERGE_GAP
                && !rows@[y as int]),
            pe == 0 ==> bands@.len() == 0,
            forall|i: int|
                0 <= i < bands@.len() ==> is_text_run(
                    rows@,
                    (#[trigger] bands@[i]).0 as int,
                    bands@[i].1 as int,
                ) && bands@[i].1 <= pe,
            forall|i: int, j: int| 0 <= i < j < bands@.len() ==> bands@[i].1 < bands@[j].0,
            forall|s: int, e: int| #[trigger]
                is_text_run(rows@, s, e) && s < pe ==> exists|i: int|
                    0 <= i < bands@.len() && (#[trigger] bands@[i]).0 == s && bands@[i].1 == e,
        decreases n - y,
    {
        if !rows[y] {
            y = y + 1;
            continue;
        }
        let start: usize = y;
        let mut last_true: usize = y;
        y = y + 1;
        let ghost g = VERTICAL_MERGE_GAP as int;
        while y < n
            invariant_except_break
                y == last_true + 1,
            invariant
                n == rows@.len(),
                g == VERTICAL_MERGE_GAP,
                start <= last_true < y <= n,
                rows@[start as int],
                rows@[last_true as int],
                forall|k: int|
                    start <= k && k + g <= last_true ==> #[trigger] has_text(rows@, k, k + g + 1),
            ensures
                start <= last_true < y <= n,
                forall|j: int| last_true < j < y ==> !rows@[j],
                y == n || (y == last_true + 1 + g && !rows@[y as int]),
            decreases n - y,
        {
            if rows[y] {
                proof {
                    assert forall|k: int| start <= k && k + g <= y implies #[trigger] has_text(
                        rows@,
                        k,
                        k + g + 1,
                    ) by {
                        if k + g > last_true {
                            assert(rows@[y as int]);
                        }
                    }
                }
                last_true = y;
                y = y + 1;
            } else {
                let gap_start: usize = y;
                while y < n && !rows[y] && (y - gap_start) < VERTICAL_MERGE_GAP
                    invariant
                        n == rows@.len(),
                        gap_start <= y <= n,
                        y - gap_start <= VERTICAL_MERGE_GAP,
                        forall|j: int| gap_start <= j < y ==> !rows@[j],
                    decreases n - y,
                {
                    y = y + 1;
                }
                if y < n && rows[y] {
                    proof {
                        assert forall|k: int| start <= k && k + g <= y implies #[trigger] has_text(
                            rows@,
                            k,
                            k + g + 1,
                        ) by {
                            if k + g > last_true {
                                if k <= last_true {
                                    assert(rows@[last_true as int]);
                                } else {
                                    assert(rows@[y as int]);
                                }
                            }
                        }
                    }
                    last_true = y;
                    y = y + 1;
                } else {
                    break;
                }
            }
        }
        let end: usize = last_true + 1;
        proof {
            assert(!has_text(rows@, start - g - 1, start as int));
            assert(!has_text(rows@, end as int, end + g + 1));
            assert(is_run(rows@, start as int, end as int));
        }
        let h: usize = end - start;
        let ghost before = bands@;
        if h >= MIN_BAND_HEIGHT && h <= MAX_BAND_HEIGHT {
            bands.push((start, end));
        }
        proof {
            assert forall|s: int, e: int| #[trigger]
                is_text_run(rows@, s, e) && s < end implies exists|i: int|
                0 <= i < bands@.len() && (#[trigger] bands@[i]).0 == s && bands@[i].1 == e by {
                if s < pe {
                    let i = choose|i: int|
                        0 <= i < before.len() && (#[trigger] before[i]).0 == s && before[i].1 == e;
                    assert(bands@[i] == before[i]);
                } else {
                    assert(s >= start);
                    lemma_runs_disjoint(rows@, start as int, end as int, s, e);
                    assert(bands@[before.len() as int] == (start, end));
                }
            }
            pe = end as int;
        }
    }
    bands
}

/// The list of text runs is determined by the rows.
pub proof fn lemma_text_runs_unique(
    rows: Seq<bool>,
    a: Seq<(usize, usize)>,
    b: Seq<(usize, usize)>,
)
    requires
        lists_text_runs(rows, a),
        lists_text_runs(rows, b),
    ensures
        a == b,
{
    lemma_text_runs_prefix(rows, a, b, a.len() as int);
    lemma_text_runs_prefix(rows, b, a, b.len() as int);
    assert(a =~= b);
}

proof fn lemma_text_runs_prefix(
    rows: Seq<bool>,
    a: Seq<(usize, usize)>,
    b: Seq<(usize, usize)>,
    n: int,
)
    requires
        lists_text_runs(rows, a),
        lists_text_runs(rows, b),
        0 <= n <= a.len(),
    ensures
        n <= b.len(),
        forall|i: int| 0 <= i < n ==> a[i] == b[i],
    decreases n,
{
    if n > 0 {
        lemma_text_runs_prefix(rows, a, b, n - 1);
        let k = n - 1;
        assert(is_text_run(rows, a[k].0 as int, a[k].1 as int));
        let j = choose|j: int|
            0 <= j < b.len() && (#[trigger] b[j]).0 == a[k].0 as int && b[j].1 == a[k].1 as int;
        if j < k {
            assert(a[j] == b[j]);
            assert(a[j].1 < a[k].0);
            assert(is_text_run(rows, a[j].0 as int, a[j].1 as int));
            assert(false);
        }
        if j > k {
            assert(is_text_run(rows, b[k].0 as int, b[k].1 as int));
            let m = choose|m: int|
                0 <= m < a.len() && (#[trigger] a[m]).0 == b[k].0 as int && a[m].1 == b[k].1 as int;
            assert(b[k].1 < b[j].0);
            if m < k {
                assert(a[m] == b[m]);
                assert(b[m].1 < b[k].0);
                assert(false);
            } else if m > k {
                assert(a[k].1 < a[m].0);
                assert(is_text_run(rows, a[m].0 as int, a[m].1 as int));
                assert(false);
            } else {
                assert(false);
            }
        }
    }
}

/// `bands` covers exactly the text runs of `rows`, from the top down.
pub open spec fn bands_of_rows(rows: Seq<bool>, bands: Seq<TextBand>) -> bool {
    exists|runs: Seq<(usize, usize)>| #[trigger]
        lists_text_runs(rows, runs) && bands == runs.map_values(
            |r: (usize, usize)| TextBand::of_rows(r.0 as int, r.1 as int),
        )
}

/// Which rows of the whole image are text-like.
pub open spec fn image_rows(img: &Pixbuf) -> Seq<bool> {
    Seq::new(
        img.height as nat,
        |y: int| row_is_text(img, y, 0, sample_count(0, img.width - EDGE_SAMPLE_STRIDE)),
    )
}

/// Per-row edge-density scan of the whole image, grouped into bands. Images
/// too small to hold a line of text have none.
pub fn detect(img: &Pixbuf) -> (bands: Vec<TextBand>)
    requires
        img.wf(),
    ensures
        img.width < 2 || img.height < MIN_BAND_HEIGHT ==> bands@.len() == 0,
        img.width >= 2 && img.height >= MIN_BAND_HEIGHT ==> bands_of_rows(image_rows(img), bands@),
{
    if img.width < 2 || (img.height as usize) < MIN_BAND_HEIGHT {
        return Vec::new();
    }
    let mut rows: Vec<bool> = Vec::new();
    let mut y: u32 = 0;
    while y < img.height
        invariant
            img.wf(),
            img.width >= 2,
            y <= img.height,
            rows@ == image_rows(img).subrange(0, y as int),
        decreases img.height - y,
    {
        let text: bool = scan_row(img, y, 0, img.width - EDGE_SAMPLE_STRIDE);
        rows.push(text);
        y = y + 1;
    }
    proof {
        assert(rows@ == image_rows(img));
    }
    let runs: Vec<(usize, usize)> = group_rows(&rows);
    let ghost all = runs@.map_values(
        |r: (usize, usize)| TextBand::of_rows(r.0 as int, r.1 as int),
    );
    let mut bands: Vec<TextBand> = Vec::new();
    let mut i: usize = 0;
    while i < runs.len()
        invariant
            img.wf(),
            i <= runs@.len(),
            rows@ == image_rows(img),
            lists_text_runs(rows@, runs@),
            all == runs@.map_values(
                |r: (usize, usize)| TextBand::of_rows(r.0 as int, r.1 as int),
            ),
            bands@ == all.subrange(0, i as int),
        decreases runs@.len() - i,
    {
        let (s, e) = runs[i];
        assert(is_text_run(rows@, s as int, e as int));
        bands.push(TextBand { y_start: s as i64 * UNIT, y_end: e as i64 * UNIT });
        i = i + 1;
    }
    proof {
        assert(bands@ == all);
    }
    bands
}

/// How far, in rows, the local detector looks away from the pointer's row
/// for a text-like row.
pub const SNAP_DISTANCE_ROWS: usize = 25;

/// Half the width of the window the local detector samples.
pub const HALF_W: i64 = 80;

/// Half the height of that window: far enough to find a row and to measure
/// the whole band around it.
pub const HALF_H: i64 = 85;

/// The window of columns and rows sampled around a pointer position: columns
/// `x0..x_end`, rows `y0..y_end`.
pub ghost struct LocalWindow {
    pub x0: int,
    pub x_end: int,
    pub y0: int,
    pub y_end: int,
}

/// The window around `(x, y)`.
pub open spec fn local_window(img: &Pixbuf, x: int, y: int) -> LocalWindow {
    let cx = round_px_spec(x);
    let cy = round_px_spec(y);
    LocalWindow {
        x0: if cx - HALF_W > 0 {
            cx - HALF_W
        } else {
            0
        },
        x_end: if cx + HALF_W < img.width - 1 - EDGE_SAMPLE_STRIDE {
            cx + HALF_W + 1
        } else {
            img.width - EDGE_SAMPLE_STRIDE
        },
        y0: if cy - HALF_H > 0 {
            cy - HALF_H
        } else {
            0
        },
        y_end: if cy + HALF_H < img.height - 1 {
            cy + HALF_H + 1
        } else {
            img.height as int
        },
    }
}

/// `(x, y)` lies on the image and its window holds at least one sample.
pub open spec fn scans_window(img: &Pixbuf, x: int, y: int) -> bool {
    &&& 0 <= x < img.width * UNIT
    &&& 0 <= y < img.height * UNIT
    &&& local_window(img, x, y).x0 < local_window(img, x, y).x_end
}

/// Which rows of the window are text-like.
pub open spec fn window_rows(img: &Pixbuf, w: LocalWindow) -> Seq<bool> {
    Seq::new(
        (w.y_end - w.y0) as nat,
        |i: int| row_is_text(img, w.y0 + i, w.x0, sample_count(w.x0, w.x_end)),
    )
}

/// Distance between two rows.
pub open spec fn row_distance(a: int, b: int) -> int {
    if a >= b {
        a - b
    } else {
        b - a
    }
}

/// `a` is the text row nearest to row `c`, no further than the snap
/// distance; of two equally near ones, the lower.
pub open spec fn is_anchor(rows: Seq<bool>, c: int, a: int) -> bool {
    &&& 0 <= a < rows.len()
    &&& rows[a]
    &&& row_distance(a, c) <= SNAP_DISTANCE_ROWS
    &&& forall|j: int|
        0 <= j < rows.len() && #[trigger] rows[j] ==> row_distance(a, c) < row_distance(j, c) || (
        row_distance(a, c) == row_distance(j, c) && j <= a)
}

/// `s..e` is the text run around the row nearest to row `c`.
pub open spec fn is_local_run(rows: Seq<bool>, c: int, s: int, e: int) -> bool {
    is_text_run(rows, s, e) && exists|a: int| #[trigger] is_anchor(rows, c, a) && s <= a < e
}

/// What the local detector reports at `(x, y)`: the band of the text run
/// around the nearest text row of the window, where there is one.
pub open spec fn is_local_band(img: &Pixbuf, x: int, y: int, r: Option<TextBand>) -> bool {
    let w = local_window(img, x, y);
    let rows = window_rows(img, w);
    let c = round_px_spec(y) - w.y0;
    match r {
        Some(b) => scans_window(img, x, y) && exists|s: int, e: int| #[trigger]
            is_local_run(rows, c, s, e) && b == TextBand::of_rows(w.y0 + s, w.y0 + e),
        None => scans_window(img, x, y) ==> forall|s: int, e: int| !#[trigger] is_local_run(
            rows,
            c,
            s,
            e,
        ),
    }
}

/// Finds the text row nearest to `center`.
fn find_anchor(rows: &Vec<bool>, center: usize) -> (r: Option<usize>)
    requires
        center < rows@.len(),
        rows@.len() <= 1000,
    ensures
        match r {
            Some(a) => is_anchor(rows@, center as int, a as int),
            None => forall|a: int| !#[trigger] is_anchor(rows@, center as int, a),
        },
{
    if rows[center] {
        return Some(center);
    }
    let mut r: usize = 1;
    while r <= SNAP_DISTANCE_ROWS
        invariant
            center < rows@.len() <= 1000,
            1 <= r <= SNAP_DISTANCE_ROWS + 1,
            forall|j: int|
                0 <= j < rows@.len() && #[trigger] rows@[j] ==> row_distance(j, center as int) >= r,
        decreases SNAP_DISTANCE_ROWS + 1 - r,
    {
        let down: usize = center + r;
        if down < rows.len() && rows[down] {
            assert(is_anchor(rows@, center as int, down as int));
            return Some(down);
        }
        if center >= r && rows[center - r] {
            assert(is_anchor(rows@, center as int, center - r));
            return Some(center - r);
        }
        r = r + 1;
    }
    None
}

/// Grows the run around the text row `anchor` in both directions, bridging
/// small gaps. Returns its first and its last row.
fn grow_run(rows: &Vec<bool>, anchor: usize) -> (r: (usize, usize))
    requires
        anchor < rows@.len(),
        rows@[anchor as int],
        rows@.len() <= 1000,
    ensures
        r.0 <= anchor <= r.1 < rows@.len(),
        is_run(rows@, r.0 as int, r.1 + 1),
{
    let ghost g = VERTICAL_MERGE_GAP as int;
    let mut top: usize = anchor;
    let mut gap: usize = 0;
    while top > 0
        invariant_except_break
            top == 0 ==> gap <= VERTICAL_MERGE_GAP,
        invariant
            g == VERTICAL_MERGE_GAP,
            anchor < rows@.len() <= 1000,
            top + gap <= anchor,
            gap <= VERTICAL_MERGE_GAP,
            rows@[top + gap],
            forall|j: int| top <= j < top + gap ==> !rows@[j],
            forall|k: int|
                top + gap <= k && k + g <= anchor ==> #[trigger] has_text(rows@, k, k + g + 1),
        ensures
            top == 0 || (gap == VERTICAL_MERGE_GAP && !rows@[top - 1]),
        decreases top,
    {
        let next: usize = top - 1;
        if rows[next] {
            proof {
                let old_first = top + gap;
                assert forall|k: int| next <= k && k + g <= anchor implies #[trigger] has_text(
                    rows@,
                    k,
                    k + g + 1,
                ) by {
                    if k < old_first {
                        if k == next {
                            assert(rows@[next as int]);
                        } else {
                            assert(rows@[old_first]);
                        }
                    }
                }
            }
            top = next;
            gap = 0;
        } else if gap < VERTICAL_MERGE_GAP {
            top = next;
            gap = gap + 1;
        } else {
            break;
        }
    }
    let ghost first = top + gap;
    assert(!has_text(rows@, first - g - 1, first));
    while !rows[top]
        invariant
            g == VERTICAL_MERGE_GAP,
            first < rows@.len() <= 1000,
            top <= first,
            rows@[first],
            forall|j: int| top <= j < first ==> !rows@[j],
        decreases first - top,
    {
        top = top + 1;
    }
    let mut bot: usize = anchor;
    gap = 0;
    while bot + 1 < rows.len()
        invariant
            g == VERTICAL_MERGE_GAP,
            anchor < rows@.len() <= 1000,
            anchor + gap <= bot < rows@.len(),
            top == first <= anchor,
            gap <= VERTICAL_MERGE_GAP,
            rows@[bot - gap],
            forall|j: int| bot - gap < j <= bot ==> !rows@[j],
            forall|k: int|
                top <= k && k + g <= bot - gap ==> #[trigger] has_text(rows@, k, k + g + 1),
        ensures
            bot + 1 >= rows@.len() || (gap == VERTICAL_MERGE_GAP && !rows@[bot + 1]),
        decreases rows@.len() - bot,
    {
        let next: usize = bot + 1;
        if rows[next] {
            proof {
                let old_last = bot - gap;
                assert forall|k: int| top <= k && k + g <= next implies #[trigger] has_text(
                    rows@,
                    k,
                    k + g + 1,
                ) by {
                    if k + g > old_last {
                        if k + g == next {
                            assert(rows@[next as int]);
                        } else {
                            assert(rows@[old_last]);
                        }
                    }
                }
            }
            bot = next;
            gap = 0;
        } else if gap < VERTICAL_MERGE_GAP {
            bot = next;
            gap = gap + 1;
        } else {
            break;
        }
    }
    let ghost last = bot - gap;
    assert(!has_text(rows@, last + 1, last + 1 + g + 1));
    while !rows[bot]
        invariant
            g == VERTICAL_MERGE_GAP,
            0 <= last <= bot < rows@.len(),
            rows@[last],
            forall|j: int| last < j <= bot ==> !rows@[j],
        decreases bot,
    {
        bot = bot - 1;
    }
    (top, bot)
}

/// The text run around the row nearest to `center`: its first row and the
/// row after its last.
fn local_run(rows: &Vec<bool>, center: usize) -> (r: Option<(usize, usize)>)
    requires
        center < rows@.len(),
        rows@.len() <= 1000,
    ensures
        match r {
            Some((s, e)) => is_local_run(rows@, center as int, s as int, e as int),
            None => forall|s: int, e: int| !#[trigger] is_local_run(rows@, center as int, s, e),
        },
{
    let anchor: usize = match find_anchor(rows, center) {
        Some(a) => a,
        None => {
            return None;
        },
    };
    let (top, bot): (usize, usize) = grow_run(rows, anchor);
    proof {
        assert forall|s: int, e: int| #[trigger] is_local_run(
            rows@,
            center as int,
            s,
            e,
        ) implies s == top && e == bot + 1 by {
            let a = choose|a: int| #[trigger] is_anchor(rows@, center as int, a) && s <= a < e;
            assert(a == anchor);
            if s <= top {
                lemma_runs_disjoint(rows@, s, e, top as int, bot + 1);
            } else {
                lemma_runs_disjoint(rows@, top as int, bot + 1, s, e);
            }
        }
    }
    let h: usize = bot - top + 1;
    if h < MIN_BAND_HEIGHT || h > MAX_BAND_HEIGHT {
        return None;
    }
    assert(is_local_run(rows@, center as int, top as int, bot + 1));
    Some((top, bot + 1))
}

/// Which rows of a window are text-like.
fn scan_window(img: &Pixbuf, x0: i64, x_end: i64, y0: i64, y_end: i64) -> (rows: Vec<bool>)
    requires
        img.wf(),
        0 <= x0 < x_end <= img.width - EDGE_SAMPLE_STRIDE,
        0 <= y0 <= y_end <= img.height,
    ensures
        rows@ == window_rows(
            img,
            (LocalWindow {
                x0: x0 as int,
                x_end: x_end as int,
                y0: y0 as int,
                y_end: y_end as int,
            }),
        ),
{
    let ghost w = LocalWindow {
        x0: x0 as int,
        x_end: x_end as int,
        y0: y0 as int,
        y_end: y_end as int,
    };
    let ghost all = window_rows(img, w);
    let mut rows: Vec<bool> = Vec::new();
    let mut yy: i64 = y0;
    while yy < y_end
        invariant
            img.wf(),
            0 <= x0 < x_end <= img.width - EDGE_SAMPLE_STRIDE,
            0 <= y0 <= yy <= y_end <= img.height,
            w == (LocalWindow {
                x0: x0 as int,
                x_end: x_end as int,
                y0: y0 as int,
                y_end: y_end as int,
            }),
            all == window_rows(img, w),
            rows@ == all.subrange(0, yy - y0),
        decreases y_end - yy,
    {
        let text: bool = scan_row(img, yy as u32, x0 as u32, x_end as u32);
        rows.push(text);
        yy = yy + 1;
    }
    assert(rows@ == all);
    rows
}

/// First column of the window around `x`, and one past the last.
fn window_columns(img: &Pixbuf, x: i64, Ghost(y): Ghost<i64>) -> (r: (i64, i64))
    requires
        0 <= x < img.width * UNIT,
    ensures
        r.0 == local_window(img, x as int, y as int).x0,
        r.1 == local_window(img, x as int, y as int).x_end,
{
    let img_w: i64 = img.width as i64;
    let cx: i64 = round_px(x);
    let x0: i64 = if cx - HALF_W > 0 {
        cx - HALF_W
    } else {
        0
    };
    let x_end: i64 = if cx + HALF_W < img_w - 1 - EDGE_SAMPLE_STRIDE as i64 {
        cx + HALF_W + 1
    } else {
        img_w - EDGE_SAMPLE_STRIDE as i64
    };
    (x0, x_end)
}

/// Scans a window around `(x, y)`, finds the nearest text-like row and grows
/// the band around it.
pub fn detect_local_band_uncached(img: &Pixbuf, x: i64, y: i64) -> (r: Option<TextBand>)
    requires
        img.wf(),
        scans_window(img, x as int, y as int) ==> round_px_spec(y as int) < img.height,
    ensures
        is_local_band(img, x as int, y as int, r),
        r matches Some(b) ==> b.wf(),
{
    let img_w: i64 = img.width as i64;
    let img_h: i64 = img.height as i64;
    if x < 0 || x >= img_w * UNIT || y < 0 || y >= img_h * UNIT {
        return None;
    }
    let (x0, x_end): (i64, i64) = window_columns(img, x, Ghost(y));
    let cy: i64 = round_px(y);
    if x_end <= x0 {
        return None;
    }
    let y0: i64 = if cy - HALF_H > 0 {
        cy - HALF_H
    } else {
        0
    };
    let y_end: i64 = if cy + HALF_H < img_h - 1 {
        cy + HALF_H + 1
    } else {
        img_h
    };
    let rows: Vec<bool> = scan_window(img, x0, x_end, y0, y_end);
    match local_run(&rows, (cy - y0) as usize) {
        Some((s, e)) => Some(
            TextBand { y_start: (y0 + s as i64) * UNIT, y_end: (y0 + e as i64) * UNIT },
        ),
        None => None,
    }
}

/// Horizontal travel past which a remembered band is detected anew.
pub const CACHE_HORIZONTAL_RADIUS: i64 = 60 * UNIT;

/// How far above or below a remembered band the pointer may wander before it
/// is detected anew.
pub const CACHE_VERTICAL_SLACK: i64 = 20 * UNIT;

/// The band last reported, and the pointer column it was detected at.
#[derive(Clone, Copy, Debug, PartialEq, Eq, Structural)]
pub struct BandCacheEntry {
    pub band: TextBand,
    pub cache_x: i64,
}

impl BandCacheEntry {
    /// Distance of `y` from the band, zero inside it.
    pub open spec fn dy_outside(&self, y: int) -> int {
        if y < self.band.y_start {
            self.band.y_start - y
        } else if y >= self.band.y_end {
            y - self.band.y_end
        } else {
            0
        }
    }

    /// The pointer at `(x, y)` is still on the remembered band.
    pub open spec fn covers(&self, x: int, y: int) -> bool {
        &&& -CACHE_HORIZONTAL_RADIUS <= x - self.cache_x <= CACHE_HORIZONTAL_RADIUS
        &&& self.dy_outside(y) <= CACHE_VERTICAL_SLACK
    }
}

/// What the detector remembers between calls: the first screenshot it was
/// given, the bands of it, and the band last hovered.
pub struct BandState {
    pub image: Option<Pixbuf>,
    pub bands: Option<Vec<TextBand>>,
    pub cache: Option<BandCacheEntry>,
}

impl BandState {
    pub open spec fn wf(&self) -> bool {
        &&& self.image matches Some(img) ==> img.wf()
        &&& self.cache matches Some(c) ==> c.band.wf() && coord_ok(c.cache_x as int)
    }

    /// The bands found so far; none before the first screenshot.
    pub open spec fn bands_spec(&self) -> Seq<TextBand> {
        match self.bands {
            Some(b) => b@,
            None => Seq::empty(),
        }
    }

    /// Nothing seen yet.
    pub fn new() -> (r: BandState)
        ensures
            r.wf(),
            r.image is None,
            r.bands is None,
            r.cache is None,
    {
        BandState { image: None, bands: None, cache: None }
    }
}

/// Remembers the screenshot and scans it for bands. Once that is done, later
/// calls do nothing: the bands are those of the first screenshot, whatever is
/// drawn over it.
pub fn init_from_pixbuf(state: &mut BandState, pixbuf: Pixbuf)
    requires
        old(state).wf(),
        pixbuf.wf(),
    ensures
        final(state).wf(),
        old(state).bands is Some ==> *final(state) == *old(state),
        old(state).bands is None ==> {
            &&& final(state).image == Some(pixbuf)
            &&& final(state).cache == old(state).cache
            &&& final(state).bands is Some
            &&& if pixbuf.width < 2 || pixbuf.height < MIN_BAND_HEIGHT {
                final(state).bands_spec() == Seq::<TextBand>::empty()
            } else {
                bands_of_rows(image_rows(&pixbuf), final(state).bands_spec())
            }
        },
{
    if state.bands.is_some() {
        return ;
    }
    let bands: Vec<TextBand> = detect(&pixbuf);
    state.bands = Some(bands);
    state.image = Some(pixbuf);
}

/// The bands of the screenshot; empty before any was scanned.
pub fn bands(state: &BandState) -> (r: Vec<TextBand>)
    ensures
        r@ == state.bands_spec(),
{
    match &state.bands {
        Some(b) => {
            let mut out: Vec<TextBand> = Vec::new();
            let mut i: usize = 0;
            while i < b.len()
                invariant
                    i <= b@.len(),
                    out@ == b@.subrange(0, i as int),
                decreases b@.len() - i,
            {
                out.push(b[i]);
                i = i + 1;
            }
            assert(out@ == b@);
            out
        },
        None => Vec::new(),
    }
}

/// Forgets the band last hovered, so that the next hover detects anew.
pub fn clear_local_band_cache(state: &mut BandState)
    ensures
        final(state).cache is None,
        final(state).image == old(state).image,
        final(state).bands == old(state).bands,
        old(state).wf() ==> final(state).wf(),
{
    state.cache = None;
}

/// The pointer at `(x, y)` is still on the remembered band.
pub open spec fn on_remembered_band(state: &BandState, x: int, y: int) -> bool {
    state.cache matches Some(c) && c.covers(x, y)
}

/// The row that `(x, y)` rounds to is on the image, if it has to be looked at.
pub open spec fn detectable(state: &BandState, x: int, y: int) -> bool {
    !on_remembered_band(state, x, y) ==> (state.image matches Some(img) ==> (scans_window(
        &img,
        x,
        y,
    ) ==> round_px_spec(y) < img.height))
}

/// `r` is the band under `(x, y)`, and `after` what is remembered of it.
pub open spec fn is_detected(
    before: &BandState,
    x: int,
    y: int,
    r: Option<TextBand>,
    after: &BandState,
) -> bool {
    &&& after.image == before.image
    &&& after.bands == before.bands
    &&& if on_remembered_band(before, x, y) {
        r == Some(before.cache->0.band) && after.cache == before.cache
    } else {
        &&& match before.image {
            Some(img) => is_local_band(&img, x, y, r),
            None => r is None,
        }
        &&& after.cache == match r {
            Some(band) => Some(BandCacheEntry { band, cache_x: x as i64 }),
            None => None,
        }
    }
}

/// Whether a band can be looked for at `(x, y)`: not on the lower half of the
/// last row, which rounds to a row below the image.
pub fn can_detect(state: &BandState, x: i64, y: i64) -> (r: bool)
    requires
        state.wf(),
        coord_ok(x as int),
        coord_ok(y as int),
    ensures
        r == detectable(state, x as int, y as int),
{
    if remembered(state, x, y).is_some() {
        return true;
    }
    match &state.image {
        Some(img) => {
            let (w, h): (i64, i64) = (img.width as i64, img.height as i64);
            if x < 0 || x >= w * UNIT || y < 0 || y >= h * UNIT {
                return true;
            }
            let (x0, x_end): (i64, i64) = window_columns(img, x, Ghost(y));
            x_end <= x0 || round_px(y) < h
        },
        None => true,
    }
}

/// The remembered band, while the pointer is on it.
fn remembered(state: &BandState, x: i64, y: i64) -> (r: Option<TextBand>)
    requires
        state.wf(),
        coord_ok(x as int),
        coord_ok(y as int),
    ensures
        r == if on_remembered_band(state, x as int, y as int) {
            Some(state.cache->0.band)
        } else {
            None
        },
{
    if let Some(entry) = state.cache {
        let dx: i64 = x - entry.cache_x;
        if -CACHE_HORIZONTAL_RADIUS <= dx && dx <= CACHE_HORIZONTAL_RADIUS {
            let dy_outside: i64 = if y < entry.band.y_start {
                entry.band.y_start - y
            } else if y >= entry.band.y_end {
                y - entry.band.y_end
            } else {
                0
            };
            if dy_outside <= CACHE_VERTICAL_SLACK {
                return Some(entry.band);
            }
        }
    }
    None
}

/// The band under `(x, y)`. While the pointer stays on the remembered band
/// that band is reported again; otherwise it is detected afresh and
/// remembered.
pub fn detect_local_band(state: &mut BandState, x: i64, y: i64) -> (r: Option<TextBand>)
    requires
        old(state).wf(),
        coord_ok(x as int),
        coord_ok(y as int),
        detectable(old(state), x as int, y as int),
    ensures
        final(state).wf(),
        is_detected(old(state), x as int, y as int, r, final(state)),
        r matches Some(b) ==> b.wf(),
{
    if let Some(band) = remembered(state, x, y) {
        return Some(band);
    }
    let fresh: Option<TextBand> = match &state.image {
        Some(img) => detect_local_band_uncached(img, x, y),
        None => None,
    };
    state.cache = match fresh {
        Some(band) => Some(BandCacheEntry { band, cache_x: x }),
        None => None,
    };
    fresh
}

/// A band detected at column `x` is reported again for every pointer position
/// within the horizontal radius of `x` and the vertical slack of the band.
pub proof fn lemma_band_sticks(band: TextBand, x: int, x2: int, y2: int)
    requires
        band.wf(),
        coord_ok(x),
        band.y_start - CACHE_VERTICAL_SLACK <= y2 <= band.y_end + CACHE_VERTICAL_SLACK,
        x - CACHE_HORIZONTAL_RADIUS <= x2 <= x + CACHE_HORIZONTAL_RADIUS,
    ensures
        (BandCacheEntry { band, cache_x: x as i64 }).covers(x2, y2),
{
}

} // verus!
