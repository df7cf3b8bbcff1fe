use toolchanger_utils::crosshair::draw_crosshair;

/// The crosshair of a `w` by `h` picture worked out independently, with signed
/// coordinates, as a set of marked pixels.
fn expected(w: usize, h: usize, radius: i32) -> Vec<bool> {
    let mut marked = vec![false; w * h];
    let cx = (w / 2) as i64;
    let cy = (h / 2) as i64;
    for x in 0..w {
        marked[x + (h / 2) * w] = true;
    }
    for y in 0..h {
        marked[w / 2 + y * w] = true;
    }
    let mut x: i64 = 0;
    let mut y: i64 = radius as i64;
    let mut d: i64 = 3 - 2 * radius as i64;
    while y >= x {
        let points = [
            (cx + x, cy + y),
            (cx - x, cy + y),
            (cx + x, cy - y),
            (cx - x, cy - y),
            (cx + y, cy + x),
            (cx - y, cy + x),
            (cx + y, cy - x),
            (cx - y, cy - x),
        ];
        for (px, py) in points {
            if px >= 0 && py >= 0 && (px as usize) < w && (py as usize) < h {
                marked[px as usize + py as usize * w] = true;
            }
        }
        if d > 0 {
            y -= 1;
            d += 4 * (x - y) + 10;
        } else {
            d += 4 * x + 6;
        }
        x += 1;
    }
    marked
}

fn check(w: usize, h: usize, radius: i32) {
    let mut pixels = vec![0u8; w * h];
    draw_crosshair(&mut pixels, w, h, radius, 1u8);
    let want = expected(w, h, radius);
    for i in 0..w * h {
        assert_eq!(pixels[i] == 1, want[i], "w={} h={} r={} pixel {}", w, h, radius, i);
    }
}

#[test]
fn crosshair_lines_only() {
    let mut pixels = vec![0u8; 5 * 3];
    draw_crosshair(&mut pixels, 5, 3, -1, 9u8);
    let want: Vec<u8> = vec![
        0, 0, 9, 0, 0, //
        9, 9, 9, 9, 9, //
        0, 0, 9, 0, 0,
    ];
    assert_eq!(pixels, want);
}

#[test]
fn crosshair_radius_one() {
    let mut pixels = vec![0u8; 7 * 7];
    draw_crosshair(&mut pixels, 7, 7, 1, 1u8);
    // Lines through (3, 3); the circle of radius 1 is drawn in one step, at
    // the four neighbours of the centre, which lie on the lines already.
    for (x, y) in [(2usize, 2usize), (4, 2), (2, 4), (4, 4)] {
        assert_eq!(pixels[x + y * 7], 0);
    }
    for (x, y) in [(3usize, 2usize), (2, 3), (4, 3), (3, 4)] {
        assert_eq!(pixels[x + y * 7], 1);
    }
    assert_eq!(pixels[0], 0);
    assert_eq!(pixels[1 + 1 * 7], 0);
    check(7, 7, 1);
}

#[test]
fn crosshair_matches_circle_algorithm() {
    for (w, h) in [(1usize, 1usize), (2, 3), (16, 9), (31, 31), (40, 25)] {
        for r in [-3, 0, 1, 2, 3, 5, 8, 12, 20, 50] {
            check(w, h, r);
        }
    }
}

#[test]
fn crosshair_keeps_other_pixels() {
    let mut pixels: Vec<u16> = (0..(9 * 9) as u16).collect();
    draw_crosshair(&mut pixels, 9, 9, 2, 1000u16);
    let want = expected(9, 9, 2);
    for i in 0..81 {
        if want[i] {
            assert_eq!(pixels[i], 1000);
        } else {
            assert_eq!(pixels[i], i as u16);
        }
    }
}
