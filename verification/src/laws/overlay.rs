//! What is drawn over an image while it is cropped.
use vstd::prelude::*;
use crate::tools::crop::overlay::{
    on_image, BRACKET_LENGTH, EDGE_HANDLE_LENGTH, GRID_STROKE_WIDTH, HANDLE_STROKE_WIDTH,
};
use crate::tools::crop::Crop;
use crate::units::{MICRO, UNIT};

verus! {

/// The coordinates of the crop, and what is drawn around it, are in range.
pub open spec fn in_range(c: Crop, len: int) -> bool {
    let m: int = 0x1000_0000_0000_0000;
    &&& -m <= c.pos.x <= m && -m <= c.pos.y <= m
    &&& 0 <= c.size.x <= m && 0 <= c.size.y <= m
    &&& 0 <= len <= m
}

/// The grid has two lines down and two across, at the thirds, from edge to
/// edge.
pub proof fn lemma_grid_lies_at_thirds(c: Crop)
    requires
        in_range(c, 0),
    ensures
        ({
            let g = c.grid_spec();
            let (x, y) = (c.pos.x as int, c.pos.y as int);
            let (w, h) = (c.size.x as int, c.size.y as int);
            &&& g.len() == 4
            &&& g[0].a.x == g[0].b.x && -1 <= 3 * (g[0].a.x - x) - w <= 1
            &&& g[1].a.x == g[1].b.x && -1 <= 3 * (g[1].a.x - x) - 2 * w <= 1
            &&& g[2].a.y == g[2].b.y && -1 <= 3 * (g[2].a.y - y) - h <= 1
            &&& g[3].a.y == g[3].b.y && -1 <= 3 * (g[3].a.y - y) - 2 * h <= 1
            &&& g[0].a.y == y && g[0].b.y == y + h && g[1].a.y == y && g[1].b.y == y + h
            &&& g[2].a.x == x && g[2].b.x == x + w && g[3].a.x == x && g[3].b.x == x + w
        }),
{
}

/// Each bracket sits on a corner, and its arms lie along the edges toward the
/// inside.
pub proof fn lemma_brackets_sit_on_corners(c: Crop, len: int)
    requires
        in_range(c, len),
    ensures
        ({
            let k = c.brackets_spec(len);
            let (l, t) = (c.pos.x as int, c.pos.y as int);
            let (r, b) = (l + c.size.x, t + c.size.y);
            &&& k.len() == 4
            &&& k[0].corner.x == l && k[0].corner.y == t
            &&& k[1].corner.x == r && k[1].corner.y == t
            &&& k[2].corner.x == l && k[2].corner.y == b
            &&& k[3].corner.x == r && k[3].corner.y == b
            &&& forall|i: int| #![trigger k[i]]
                0 <= i < 4 ==> {
                    &&& k[i].side.y == k[i].corner.y && k[i].down.x == k[i].corner.x
                    &&& k[i].side.x - k[i].corner.x == if i % 2 == 0 {
                        len
                    } else {
                        -len
                    }
                    &&& k[i].down.y - k[i].corner.y == if i < 2 {
                        len
                    } else {
                        -len
                    }
                }
        }),
{
}

/// The bars lie on the edges, around their middles.
pub proof fn lemma_bars_lie_around_the_middles(c: Crop, arm: int)
    requires
        in_range(c, arm),
    ensures
        ({
            let s = c.bars_spec(arm);
            let (l, t) = (c.pos.x as int, c.pos.y as int);
            let (r, b) = (l + c.size.x, t + c.size.y);
            &&& s.len() == 4
            &&& s[0].a.y == t && s[0].b.y == t && s[1].a.y == b && s[1].b.y == b
            &&& s[2].a.x == l && s[2].b.x == l && s[3].a.x == r && s[3].b.x == r
            &&& s[0].b.x - s[0].a.x == 2 * arm && s[1].b.x - s[1].a.x == 2 * arm
            &&& s[2].b.y - s[2].a.y == 2 * arm && s[3].b.y - s[3].a.y == 2 * arm
            &&& l + r - 1 <= s[0].a.x + s[0].b.x <= l + r && s[1].a.x == s[0].a.x
            &&& t + b - 1 <= s[2].a.y + s[2].b.y <= t + b && s[3].a.y == s[2].a.y
        }),
{
}

/// Lengths on screen are divided by the scale of the view.
pub proof fn lemma_overlay_keeps_its_size_on_screen(len: int, scale: int)
    requires
        scale > 0,
    ensures
        -scale <= 2 * (on_image(len, scale) * scale - len * MICRO) <= scale,
        BRACKET_LENGTH == 28 * UNIT,
        EDGE_HANDLE_LENGTH == 36 * UNIT,
        HANDLE_STROKE_WIDTH == 5 * UNIT,
        GRID_STROKE_WIDTH == UNIT,
{
    crate::units::lemma_div_round_near(len * MICRO, scale);
}

} // verus!
