//! The crosshair drawn over the camera picture: a horizontal and a vertical line
//! through the centre, and a circle around it drawn with the midpoint
//! (Bresenham) circle algorithm.
use vstd::prelude::*;
use vstd::arithmetic::div_mod::{lemma_fundamental_div_mod, lemma_fundamental_div_mod_converse};

verus! {

/// The largest circle radius drawn, which keeps the algorithm's decision value
/// within 32-bit range as the camera view computes it.
pub const MAX_RADIUS: i32 = 1048576;

/// One iteration of the circle algorithm on `(x, y, d)`.
pub open spec fn circle_step(s: (int, int, int)) -> (int, int, int) {
    let (x, y, d) = s;
    if d > 0 {
        (x + 1, y - 1, d + 4 * (x - (y - 1)) + 10)
    } else {
        (x + 1, y, d + 4 * x + 6)
    }
}

/// The circle algorithm's `(x, y, d)` after `k` iterations.
pub open spec fn circle_state(r: int, k: nat) -> (int, int, int)
    decreases k,
{
    if k == 0 {
        (0, r, 3 - 2 * r)
    } else {
        circle_step(circle_state(r, (k - 1) as nat))
    }
}

/// Iteration `k` is reached and drawn: every state up to it has `y >= x`.
pub open spec fn circle_drawn(r: int, k: nat) -> bool {
    forall|j: nat| j <= k ==> #[trigger] circle_state(r, j).1 >= circle_state(r, j).0
}

/// `(px, py)` is one of the eight mirror images of `(x, y)` about `(cx, cy)`.
pub open spec fn octant_hit(cx: int, cy: int, x: int, y: int, px: int, py: int) -> bool {
    ||| px == cx + x && py == cy + y
    ||| px == cx - x && py == cy + y
    ||| px == cx + x && py == cy - y
    ||| px == cx - x && py == cy - y
    ||| px == cx + y && py == cy + x
    ||| px == cx - y && py == cy + x
    ||| px == cx + y && py == cy - x
    ||| px == cx - y && py == cy - x
}

/// `(px, py)` lies on a circle point drawn in iteration `k`.
pub open spec fn circle_hit(cx: int, cy: int, r: int, k: nat, px: int, py: int) -> bool {
    octant_hit(cx, cy, circle_state(r, k).0, circle_state(r, k).1, px, py)
}

/// `(px, py)` lies on the circle of radius `r` around `(cx, cy)`.
pub open spec fn on_circle(cx: int, cy: int, r: int, px: int, py: int) -> bool {
    exists|k: nat| circle_drawn(r, k) && #[trigger] circle_hit(cx, cy, r, k, px, py)
}

/// Pixel `(px, py)` of a `w` by `h` picture is part of the crosshair.
pub open spec fn on_crosshair(w: int, h: int, r: int, px: int, py: int) -> bool {
    py == h / 2 || px == w / 2 || on_circle(w / 2, h / 2, r, px, py)
}

/// `(px, py)` is hit by one of the iterations before `k`.
pub open spec fn hit_before(cx: int, cy: int, r: int, k: nat, px: int, py: int) -> bool {
    exists|j: nat| j < k && #[trigger] circle_hit(cx, cy, r, j, px, py)
}

/// Law: the circle algorithm walks along the circle. Iteration `k`, while it
/// is drawn, is at `x = k`, never above the radius, and lies within one pixel
/// of the circle: `|x² + y² − r²| ≤ 2r + 1`.
pub proof fn lemma_circle_points_near_radius(r: int, k: nat)
    requires
        circle_drawn(r, k),
    ensures
        circle_state(r, k).0 == k,
        0 <= circle_state(r, k).1 <= r,
        -(2 * r + 1) <= circle_state(r, k).0 * circle_state(r, k).0 + circle_state(r, k).1
            * circle_state(r, k).1 - r * r <= 2 * r + 1,
        circle_state(r, k).2 == 2 * (circle_state(r, k).0 * circle_state(r, k).0
            + circle_state(r, k).1 * circle_state(r, k).1 - r * r) + 4 * circle_state(r, k).0
            - 6 * circle_state(r, k).1 + 4 * r + 3,
    decreases k,
{
    assert(circle_state(r, k).1 >= circle_state(r, k).0);
    if k == 0 {
        assert(circle_state(r, 0).1 >= circle_state(r, 0).0);
        assert(r >= 0);
        assert(r * r - r * r == 0) by (nonlinear_arith);
    } else {
        let km = (k - 1) as nat;
        assert(circle_drawn(r, km)) by {
            assert forall|j: nat| j <= km implies #[trigger] circle_state(r, j).1
                >= circle_state(r, j).0 by {
                assert(j <= k);
            }
        }
        lemma_circle_points_near_radius(r, km);
        let (x, y, d) = circle_state(r, km);
        let (x2, y2, d2) = circle_state(r, k);
        let e = x * x + y * y - r * r;
        assert(circle_state(r, k) == circle_step(circle_state(r, km)));
        assert(y2 >= x2);
        if d > 0 {
            assert(x2 == x + 1 && y2 == y - 1);
            assert(x2 * x2 + y2 * y2 - r * r == e + 2 * x - 2 * y + 2) by (nonlinear_arith)
                requires
                    x2 == x + 1,
                    y2 == y - 1,
                    e == x * x + y * y - r * r,
            ;
        } else {
            assert(x2 == x + 1 && y2 == y);
            assert(x2 * x2 + y2 * y2 - r * r == e + 2 * x + 1) by (nonlinear_arith)
                requires
                    x2 == x + 1,
                    y2 == y,
                    e == x * x + y * y - r * r,
            ;
        }
    }
}

/// Law: every circle pixel lies within one pixel of the circle of radius `r`
/// around the centre: its offset `(dx, dy)` has `|dx² + dy² − r²| ≤ 2r + 1`.
pub proof fn lemma_circle_pixels_near_radius(cx: int, cy: int, r: int, px: int, py: int)
    requires
        on_circle(cx, cy, r, px, py),
    ensures
        -(2 * r + 1) <= (px - cx) * (px - cx) + (py - cy) * (py - cy) - r * r <= 2 * r + 1,
{
    let k = choose|k: nat| circle_drawn(r, k) && #[trigger] circle_hit(cx, cy, r, k, px, py);
    lemma_circle_points_near_radius(r, k);
    let (x, y, _) = circle_state(r, k);
    let dx = px - cx;
    let dy = py - cy;
    assert(dx * dx + dy * dy == x * x + y * y) by (nonlinear_arith)
        requires
            (dx == x || dx == -x) && (dy == y || dy == -y) || (dx == y || dx == -y) && (dy == x
                || dy == -x),
    ;
}

proof fn lemma_index(i: int, w: int, px: int, py: int)
    requires
        w >= 1,
        0 <= px < w,
        0 <= py,
    ensures
        i == px + py * w <==> (i % w == px && i / w == py),
{
    if i == px + py * w {
        lemma_fundamental_div_mod_converse(i, w, py, px);
    }
    if i % w == px && i / w == py {
        lemma_fundamental_div_mod(i, w);
        assert(i == px + py * w) by (nonlinear_arith)
            requires
                i == w * (i / w) + i % w,
                i % w == px,
                i / w == py,
        ;
    }
}

proof fn lemma_index_bounds(i: int, w: int, h: int)
    requires
        w >= 1,
        h >= 1,
        0 <= i < w * h,
    ensures
        0 <= i % w < w,
        0 <= i / w < h,
{
    lemma_fundamental_div_mod(i, w);
    assert(0 <= i / w < h) by (nonlinear_arith)
        requires
            w >= 1,
            i == w * (i / w) + i % w,
            0 <= i % w < w,
            0 <= i < w * h,
    ;
}

/// Colours pixel `(px, py)` if it lies inside the picture.
fn put<C: Copy>(pixels: &mut Vec<C>, width: usize, height: usize, px: i128, py: i128, color: C)
    requires
        width >= 1,
        height >= 1,
        old(pixels)@.len() == width * height,
        width * height <= usize::MAX,
    ensures
        final(pixels)@.len() == old(pixels)@.len(),
        forall|i: int|
            0 <= i < old(pixels)@.len() ==> #[trigger] final(pixels)@[i] == if i % (width as int)
                == px && i / (width as int) == py {
                color
            } else {
                old(pixels)@[i]
            },
{
    if 0 <= px && px < width as i128 && 0 <= py && py < height as i128 {
        let x = px as usize;
        let y = py as usize;
        proof {
            assert(x + y * width < width * height && y * width <= x + y * width) by (nonlinear_arith)
                requires
                    x < width,
                    y < height,
            ;
        }
        let idx = x + y * width;
        pixels.set(idx, color);
        proof {
            assert forall|i: int| 0 <= i < old(pixels)@.len() implies #[trigger] final(pixels)@[i]
                == if i % (width as int) == px && i / (width as int) == py {
                color
            } else {
                old(pixels)@[i]
            } by {
                lemma_index(i, width as int, px as int, py as int);
            }
        }
    } else {
        proof {
            assert forall|i: int| 0 <= i < old(pixels)@.len() implies #[trigger] final(pixels)@[i]
                == if i % (width as int) == px && i / (width as int) == py {
                color
            } else {
                old(pixels)@[i]
            } by {
                lemma_index_bounds(i, width as int, height as int);
            }
        }
    }
}

/// Colours the eight mirror images of `(x, y)` about `(cx, cy)` that lie inside the picture.
fn put_octants<C: Copy>(
    pixels: &mut Vec<C>,
    width: usize,
    height: usize,
    cx: i128,
    cy: i128,
    x: i128,
    y: i128,
    color: C,
)
    requires
        width >= 1,
        height >= 1,
        old(pixels)@.len() == width * height,
        0 <= cx <= width,
        0 <= cy <= height,
        0 <= x <= MAX_RADIUS + 1,
        -1 <= y <= MAX_RADIUS,
        width * height <= usize::MAX,
    ensures
        final(pixels)@.len() == old(pixels)@.len(),
        forall|i: int|
            0 <= i < old(pixels)@.len() ==> #[trigger] final(pixels)@[i] == if octant_hit(
                cx as int,
                cy as int,
                x as int,
                y as int,
                i % (width as int),
                i / (width as int),
            ) {
                color
            } else {
                old(pixels)@[i]
            },
{
    let ghost start = pixels@;
    put(pixels, width, height, cx + x, cy + y, color);
    put(pixels, width, height, cx - x, cy + y, color);
    put(pixels, width, height, cx + x, cy - y, color);
    put(pixels, width, height, cx - x, cy - y, color);
    put(pixels, width, height, cx + y, cy + x, color);
    put(pixels, width, height, cx - y, cy + x, color);
    put(pixels, width, height, cx + y, cy - x, color);
    put(pixels, width, height, cx - y, cy - x, color);
}

proof fn lemma_step_bound(x: int, y: int, d: int, r: int, b: int)
    requires
        0 <= x <= y <= r,
        -(3 + 2 * r + b) <= d <= 3 + 2 * r + b,
    ensures
        -(3 + 2 * r + b + 4 * r + 14) <= circle_step((x, y, d)).2 <= 3 + 2 * r + b + 4 * r + 14,
{
}

proof fn lemma_b_bound(x: int, r: int)
    requires
        0 <= x <= r <= MAX_RADIUS,
    ensures
        x * (4 * r + 14) <= MAX_RADIUS * (4 * MAX_RADIUS + 14),
{
    assert(x * (4 * r + 14) <= r * (4 * r + 14)) by (nonlinear_arith)
        requires
            0 <= x <= r,
    ;
    assert(r * (4 * r + 14) <= MAX_RADIUS * (4 * MAX_RADIUS + 14)) by (nonlinear_arith)
        requires
            0 <= r <= MAX_RADIUS,
    ;
}

/// Draws the crosshair into a `width` by `height` picture stored row by row:
/// the middle row, the middle column, and the circle of the given radius around
/// the centre. Circle points outside the picture are skipped; every other pixel
/// keeps its colour.
pub fn draw_crosshair<C: Copy>(
    pixels: &mut Vec<C>,
    width: usize,
    height: usize,
    radius: i32,
    color: C,
)
    requires
        width >= 1,
        height >= 1,
        old(pixels)@.len() == width * height,
        width * height <= usize::MAX,
        radius <= MAX_RADIUS,
    ensures
        final(pixels)@.len() == old(pixels)@.len(),
        forall|i: int|
            0 <= i < old(pixels)@.len() ==> #[trigger] final(pixels)@[i] == if on_crosshair(
                width as int,
                height as int,
                radius as int,
                i % (width as int),
                i / (width as int),
            ) {
                color
            } else {
                old(pixels)@[i]
            },
{
    let ghost start = pixels@;
    let ghost w = width as int;
    let ghost h = height as int;
    let ghost r = radius as int;
    let center_x = width / 2;
    let center_y = height / 2;

    let mut x: usize = 0;
    while x < width
        invariant
            x <= width,
            width >= 1,
            height >= 1,
            width * height <= usize::MAX,
            w == width,
            h == height,
            center_y == height / 2,
            pixels@.len() == width * height,
            forall|i: int|
                0 <= i < pixels@.len() ==> #[trigger] pixels@[i] == if i / w == h / 2 && i % w
                    < x {
                    color
                } else {
                    start[i]
                },
        decreases width - x,
    {
        proof {
            assert(x + center_y * width < width * height && center_y * width <= x + center_y
                * width) by (nonlinear_arith)
                requires
                    x < width,
                    center_y < height,
            ;
        }
        let ghost before = pixels@;
        pixels.set(x + center_y * width, color);
        proof {
            assert forall|i: int| 0 <= i < pixels@.len() implies #[trigger] pixels@[i] == if i / w
                == h / 2 && i % w < x + 1 {
                color
            } else {
                start[i]
            } by {
                lemma_index(i, w, x as int, center_y as int);
                lemma_index_bounds(i, w, h);
            }
        }
        x = x + 1;
    }

    let mut y: usize = 0;
    while y < height
        invariant
            y <= height,
            width >= 1,
            height >= 1,
            width * height <= usize::MAX,
            w == width,
            h == height,
            center_x == width / 2,
            pixels@.len() == width * height,
            forall|i: int|
                0 <= i < pixels@.len() ==> #[trigger] pixels@[i] == if i / w == h / 2 || (i % w
                    == w / 2 && i / w < y) {
                    color
                } else {
                    start[i]
                },
        decreases height - y,
    {
        proof {
            assert(center_x < width);
            assert(center_x + y * width < width * height && y * width <= center_x + y * width)
                by (nonlinear_arith)
                requires
                    center_x < width,
                    y < height,
            ;
        }
        pixels.set(center_x + y * width, color);
        proof {
            assert forall|i: int| 0 <= i < pixels@.len() implies #[trigger] pixels@[i] == if i / w
                == h / 2 || (i % w == w / 2 && i / w < y + 1) {
                color
            } else {
                start[i]
            } by {
                lemma_index(i, w, center_x as int, y as int);
                lemma_index_bounds(i, w, h);
            }
        }
        y = y + 1;
    }

    proof {
        assert forall|i: int| 0 <= i < pixels@.len() implies #[trigger] pixels@[i] == if i / w == h
            / 2 || i % w == w / 2 || hit_before(w / 2, h / 2, r, 0, i % w, i / w) {
            color
        } else {
            start[i]
        } by {
            lemma_index_bounds(i, w, h);
        }
    }
    let cx = center_x as i128;
    let cy = center_y as i128;
    let mut cxp: i64 = 0;
    let mut cyp: i64 = radius as i64;
    let mut d: i64 = 3 - 2 * (radius as i64);
    let ghost mut k: nat = 0;
    let ghost mut b: int = 0;
    while cyp >= cxp
        invariant
            width >= 1,
            height >= 1,
            width * height <= usize::MAX,
            w == width,
            h == height,
            radius <= MAX_RADIUS,
            r == radius as int,
            cx == w / 2,
            cy == h / 2,
            pixels@.len() == width * height,
            (cxp as int, cyp as int, d as int) == circle_state(r, k),
            cxp as int == k,
            cyp <= radius,
            b == k * (4 * r + 14),
            cyp >= cxp ==> -(3 + 2 * r + b) <= d <= 3 + 2 * r + b,
            forall|j: nat| j < k ==> #[trigger] circle_state(r, j).1 >= circle_state(r, j).0,
            forall|i: int|
                0 <= i < pixels@.len() ==> #[trigger] pixels@[i] == if i / w == h / 2 || i % w == w
                    / 2 || hit_before(w / 2, h / 2, r, k, i % w, i / w) {
                    color
                } else {
                    start[i]
                },
        decreases cyp - cxp + 2,
    {
        let ghost before = pixels@;
        proof {
            lemma_b_bound(k as int, r);
            assert(cx <= width);
            assert(cy <= height);
        }
        put_octants(pixels, width, height, cx, cy, cxp as i128, cyp as i128, color);
        proof {
            assert forall|i: int| 0 <= i < pixels@.len() implies #[trigger] pixels@[i] == if i / w
                == h / 2 || i % w == w / 2 || hit_before(w / 2, h / 2, r, k + 1, i % w, i / w) {
                color
            } else {
                start[i]
            } by {
                let px = i % w;
                let py = i / w;
                if circle_hit(w / 2, h / 2, r, k, px, py) {
                    assert(hit_before(w / 2, h / 2, r, k + 1, px, py));
                }
                if hit_before(w / 2, h / 2, r, k + 1, px, py) {
                    let j = choose|j: nat| j < k + 1 && #[trigger] circle_hit(w / 2, h / 2, r, j, px, py);
                    if j < k {
                        assert(hit_before(w / 2, h / 2, r, k, px, py));
                    }
                }
            }
            lemma_step_bound(cxp as int, cyp as int, d as int, r, b);
            assert((4 * r + 14) + b == (k + 1) * (4 * r + 14)) by (nonlinear_arith)
                requires
                    b == k * (4 * r + 14),
            ;
        }
        if d > 0 {
            cyp = cyp - 1;
            d = d + 4 * (cxp - cyp) + 10;
        } else {
            d = d + 4 * cxp + 6;
        }
        cxp = cxp + 1;
        proof {
            k = k + 1;
            b = b + 4 * r + 14;
        }
    }
    proof {
        assert forall|i: int| 0 <= i < pixels@.len() implies #[trigger] pixels@[i] == if on_crosshair(
            w,
            h,
            r,
            i % w,
            i / w,
        ) {
            color
        } else {
            start[i]
        } by {
            let px = i % w;
            let py = i / w;
            if hit_before(w / 2, h / 2, r, k, px, py) {
                let j = choose|j: nat| j < k && #[trigger] circle_hit(w / 2, h / 2, r, j, px, py);
                assert forall|jj: nat| jj <= j implies #[trigger] circle_state(r, jj).1 >= circle_state(
                    r,
                    jj,
                ).0 by {}
                assert(circle_drawn(r, j));
                assert(on_circle(w / 2, h / 2, r, px, py));
            }
            if on_circle(w / 2, h / 2, r, px, py) {
                let j = choose|j: nat| circle_drawn(r, j) && #[trigger] circle_hit(
                    w / 2,
                    h / 2,
                    r,
                    j,
                    px,
                    py,
                );
                if j >= k {
                    assert(circle_state(r, k).1 >= circle_state(r, k).0);
                }
                assert(hit_before(w / 2, h / 2, r, k, px, py));
            }
        }
    }
}

} // verus!
