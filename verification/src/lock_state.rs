use vstd::prelude::*;

verus! {

/// The squared distance below which a pixel counts as the lock marker.
pub const LOCK_MARKER_COLOR_DISTANCE: usize = 30;

/// The colour of the lock marker in the repository grid.
pub open spec fn lock_marker_color() -> [u8; 3] {
    [255u8, 138u8, 117u8]
}

/// The colour of the lock marker in the repository grid.
pub fn lock_marker() -> (r: [u8; 3])
    ensures
        r == lock_marker_color(),
        r@[0] == 255 && r@[1] == 138 && r@[2] == 117,
{
    [255, 138, 117]
}

/// The squared Euclidean distance of the colours `(r1, g1, b1)` and
/// `(r2, g2, b2)`.
pub open spec fn distance3(r1: int, g1: int, b1: int, r2: int, g2: int, b2: int) -> int {
    (r1 - r2) * (r1 - r2) + (g1 - g2) * (g1 - g2) + (b1 - b2) * (b1 - b2)
}

/// The squared Euclidean distance of two RGB colours.
pub open spec fn squared_distance(a: [u8; 3], b: [u8; 3]) -> int {
    distance3(a@[0] as int, a@[1] as int, a@[2] as int, b@[0] as int, b@[1] as int, b@[2] as int)
}

/// The squared Euclidean distance of two RGB colours.
pub fn color_distance(c1: [u8; 3], c2: [u8; 3]) -> (r: usize)
    ensures
        r == squared_distance(c1, c2),
{
    let x = c1[0] as i32 - c2[0] as i32;
    let y = c1[1] as i32 - c2[1] as i32;
    let z = c1[2] as i32 - c2[2] as i32;
    assert(x * x <= 65025 && y * y <= 65025 && z * z <= 65025) by (nonlinear_arith)
        requires
            -255 <= x <= 255,
            -255 <= y <= 255,
            -255 <= z <= 255,
    ;
    assert(x * x >= 0 && y * y >= 0 && z * z >= 0) by (nonlinear_arith);
    (x * x + y * y + z * z) as usize
}

/// The squared distance of the pixel at `x`, `y` of a row-major RGB image
/// `width` pixels wide from the lock marker's colour.
pub open spec fn marker_distance(pixels: Seq<u8>, width: int, x: int, y: int) -> int {
    let i = (y * width + x) * 3;
    distance3(pixels[i] as int, pixels[i + 1] as int, pixels[i + 2] as int, 255, 138, 117)
}

/// Whether the pixel `dx`, `dy` away from `cx`, `cy` lies in the image and
/// has the lock marker's colour.
pub open spec fn marker_at(pixels: Seq<u8>, width: int, height: int, cx: int, cy: int, dx: int, dy: int) -> bool {
    let x = cx + dx;
    let y = cy + dy;
    &&& 0 <= x < width
    &&& 0 <= y < height
    &&& marker_distance(pixels, width, x, y) < LOCK_MARKER_COLOR_DISTANCE
}

/// Whether the lock marker shows within the two columns left of and at
/// `cx` and the twenty rows from `cy - 10` to `cy + 9`.
pub open spec fn lock_marker_near(pixels: Seq<u8>, width: int, height: int, cx: int, cy: int) -> bool {
    exists|dx: int, dy: int|
        -1 <= dx < 1 && -10 <= dy < 10 && #[trigger] marker_at(pixels, width, height, cx, cy, dx, dy)
}

/// Whether the lock marker shows near `center_x`, `center_y` of a row-major
/// RGB image (see `lock_marker_near`).
pub fn has_lock_marker(pixels: &[u8], width: u32, height: u32, center_x: i32, center_y: i32) -> (r:
    bool)
    requires
        pixels@.len() == width * height * 3,
        width <= i32::MAX,
        height <= i32::MAX,
        center_x > i32::MIN,
        i32::MIN + 10 <= center_y <= i32::MAX - 9,
    ensures
        r == lock_marker_near(pixels@, width as int, height as int, center_x as int, center_y as int),
{
    let marker = lock_marker();
    let ghost p = pixels@;
    let ghost w = width as int;
    let ghost h = height as int;
    let mut dx: i32 = -1;
    while dx < 1
        invariant
            -1 <= dx <= 1,
            p == pixels@,
            w == width as int,
            h == height as int,
            pixels@.len() == width * height * 3,
            width <= i32::MAX,
            height <= i32::MAX,
            center_x > i32::MIN,
            i32::MIN + 10 <= center_y <= i32::MAX - 9,
            marker@[0] == 255 && marker@[1] == 138 && marker@[2] == 117,
            forall|a: int, b: int|
                -1 <= a < dx && -10 <= b < 10 ==> !#[trigger] marker_at(
                    p,
                    w,
                    h,
                    center_x as int,
                    center_y as int,
                    a,
                    b,
                ),
        decreases 1 - dx,
    {
        let mut dy: i32 = -10;
        while dy < 10
            invariant
                -1 <= dx < 1,
                -10 <= dy <= 10,
                p == pixels@,
                w == width as int,
                h == height as int,
                pixels@.len() == width * height * 3,
                width <= i32::MAX,
                height <= i32::MAX,
                center_x > i32::MIN,
                i32::MIN + 10 <= center_y <= i32::MAX - 9,
                marker@[0] == 255 && marker@[1] == 138 && marker@[2] == 117,
                forall|a: int, b: int|
                    (-1 <= a < dx && -10 <= b < 10) || (a == dx && -10 <= b < dy) ==> !#[trigger] marker_at(
                        p,
                        w,
                        h,
                        center_x as int,
                        center_y as int,
                        a,
                        b,
                    ),
            decreases 10 - dy,
        {
            let x = center_x + dx;
            let y = center_y + dy;
            if x >= 0 && y >= 0 && x < width as i32 && y < height as i32 {
                let xu = x as usize;
                let yu = y as usize;
                let wu = width as usize;
                let n = pixels.len();
                assert(yu * wu + xu < width * height) by (nonlinear_arith)
                    requires
                        yu < height,
                        xu < width,
                        wu == width,
                ;
                assert((yu * wu + xu) * 3 + 2 < n) by (nonlinear_arith)
                    requires
                        yu * wu + xu < width * height,
                        n == width * height * 3,
                ;
                let i = (yu * wu + xu) * 3;
                let color: [u8; 3] = [pixels[i], pixels[i + 1], pixels[i + 2]];
                assert(yu * wu == y * w) by (nonlinear_arith)
                    requires
                        yu == y,
                        wu == w,
                ;
                assert(i == (y * w + x) * 3);
                assert(color@[0] == p[i as int] && color@[1] == p[i + 1] && color@[2] == p[i + 2]);
                assert(squared_distance(color, marker) == marker_distance(p, w, x as int, y as int));
                if color_distance(color, marker) < LOCK_MARKER_COLOR_DISTANCE {
                    assert(marker_at(p, w, h, center_x as int, center_y as int, dx as int, dy as int));
                    return true;
                }
            }
            dy = dy + 1;
        }
        dx = dx + 1;
    }
    false
}

} // verus!
