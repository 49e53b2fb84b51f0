use vstd::prelude::*;

verus! {

/// A window or layout size in pixels.
#[derive(Clone, Copy, Debug, Hash, PartialEq, Eq, Structural)]
pub struct Size {
    pub width: usize,
    pub height: usize,
}

/// A window rectangle in screen coordinates.
#[derive(Clone, Copy, Debug, Hash, PartialEq, Eq, Structural)]
pub struct Rect {
    pub left: i32,
    pub top: i32,
    pub width: i32,
    pub height: i32,
}

/// The kind of user interface the game shows.
#[derive(Clone, Copy, Debug, Hash, PartialEq, Eq, Structural)]
pub enum UI {
    Desktop,
    Mobile,
}

/// The system the game runs on.
#[derive(Clone, Copy, Debug, Hash, PartialEq, Eq, Structural)]
pub enum Platform {
    Windows,
    MacOS,
}

/// A family of window aspect ratios that share one calibrated layout.
#[derive(Clone, Copy, Debug, Hash, PartialEq, Eq, Structural)]
pub enum ResolutionFamily {
    Windows43x18,
    Windows7x3,
    Windows16x9,
    Windows8x5,
    Windows4x3,
    MacOS8x5,
}

/// What is known of the game window.
#[derive(Clone, Debug)]
pub struct GameInfo {
    pub window: Rect,
    pub resolution_family: ResolutionFamily,
    pub is_cloud: bool,
    pub ui: UI,
    pub platform: Platform,
}

/// The aspect ratio of a family, as (width part, height part).
pub open spec fn family_ratio(family: ResolutionFamily) -> (nat, nat) {
    match family {
        ResolutionFamily::Windows43x18 => (43, 18),
        ResolutionFamily::Windows7x3 => (7, 3),
        ResolutionFamily::Windows16x9 => (16, 9),
        ResolutionFamily::Windows8x5 => (8, 5),
        ResolutionFamily::Windows4x3 => (4, 3),
        ResolutionFamily::MacOS8x5 => (8, 5),
    }
}

pub open spec fn abs_diff(a: nat, b: nat) -> nat {
    if a >= b {
        (a - b) as nat
    } else {
        (b - a) as nat
    }
}

/// `|w*q - h*p|`: the distance `|w/h - p/q|` of the window's aspect ratio
/// from the family's, times `h*q`.
pub open spec fn aspect_gap(w: nat, h: nat, family: ResolutionFamily) -> nat {
    abs_diff(w * family_ratio(family).1, h * family_ratio(family).0)
}

/// Whether `a` is strictly nearer to the aspect ratio `w/h` than `b`.
pub open spec fn nearer_family(w: nat, h: nat, a: ResolutionFamily, b: ResolutionFamily) -> bool {
    aspect_gap(w, h, a) * family_ratio(b).1 < aspect_gap(w, h, b) * family_ratio(a).1
}

/// Of the calibrated desktop families, in the order
/// 43:18, 7:3, 16:9, 8:5, 4:3, the first one nearest to `w/h`.
pub open spec fn nearest_family(w: nat, h: nat) -> ResolutionFamily {
    let f0 = ResolutionFamily::Windows43x18;
    let f1 = if nearer_family(w, h, ResolutionFamily::Windows7x3, f0) {
        ResolutionFamily::Windows7x3
    } else {
        f0
    };
    let f2 = if nearer_family(w, h, ResolutionFamily::Windows16x9, f1) {
        ResolutionFamily::Windows16x9
    } else {
        f1
    };
    let f3 = if nearer_family(w, h, ResolutionFamily::Windows8x5, f2) {
        ResolutionFamily::Windows8x5
    } else {
        f2
    };
    if nearer_family(w, h, ResolutionFamily::Windows4x3, f3) {
        ResolutionFamily::Windows4x3
    } else {
        f3
    }
}

/// The relative aspect error `|w/h - p/q| / (p/q)` is at most 1.5 %.
pub open spec fn within_tolerance(w: nat, h: nat, family: ResolutionFamily) -> bool {
    aspect_gap(w, h, family) * 1000 <= 15 * h * family_ratio(family).0
}

/// The family of a window size: the nearest calibrated family, if the
/// aspect ratio is within 1.5 % of it; none for an empty size.
pub open spec fn resolution_family(size: Size) -> Option<ResolutionFamily> {
    if size.width == 0 || size.height == 0 {
        None
    } else {
        let family = nearest_family(size.width as nat, size.height as nat);
        if within_tolerance(size.width as nat, size.height as nat, family) {
            Some(family)
        } else {
            None
        }
    }
}

fn ratio_of(family: ResolutionFamily) -> (r: (u128, u128))
    ensures
        r.0 == family_ratio(family).0,
        r.1 == family_ratio(family).1,
        1 <= r.0 <= 43,
        1 <= r.1 <= 18,
{
    match family {
        ResolutionFamily::Windows43x18 => (43, 18),
        ResolutionFamily::Windows7x3 => (7, 3),
        ResolutionFamily::Windows16x9 => (16, 9),
        ResolutionFamily::Windows8x5 => (8, 5),
        ResolutionFamily::Windows4x3 => (4, 3),
        ResolutionFamily::MacOS8x5 => (8, 5),
    }
}

fn gap_of(w: u128, h: u128, family: ResolutionFamily) -> (r: u128)
    requires
        w <= u64::MAX,
        h <= u64::MAX,
    ensures
        r == aspect_gap(w as nat, h as nat, family),
        r <= u64::MAX * 43,
{
    let (p, q) = ratio_of(family);
    let a = w * q;
    let b = h * p;
    if a >= b {
        a - b
    } else {
        b - a
    }
}

fn nearer(w: u128, h: u128, a: ResolutionFamily, b: ResolutionFamily) -> (r: bool)
    requires
        w <= u64::MAX,
        h <= u64::MAX,
    ensures
        r == nearer_family(w as nat, h as nat, a, b),
{
    let ga = gap_of(w, h, a);
    let gb = gap_of(w, h, b);
    let (_, qa) = ratio_of(a);
    let (_, qb) = ratio_of(b);
    assert(ga * qb <= (u64::MAX * 43) * 18) by (nonlinear_arith)
        requires
            ga <= u64::MAX * 43,
            qb <= 18,
    ;
    assert(gb * qa <= (u64::MAX * 43) * 18) by (nonlinear_arith)
        requires
            gb <= u64::MAX * 43,
            qa <= 18,
    ;
    ga * qb < gb * qa
}

impl ResolutionFamily {
    /// The family of a window size (see `resolution_family`).
    pub fn new(size: Size) -> (r: Option<Self>)
        ensures
            r == resolution_family(size),
    {
        if size.width == 0 || size.height == 0 {
            return None;
        }
        let w = size.width as u128;
        let h = size.height as u128;
        let mut best = ResolutionFamily::Windows43x18;
        if nearer(w, h, ResolutionFamily::Windows7x3, best) {
            best = ResolutionFamily::Windows7x3;
        }
        if nearer(w, h, ResolutionFamily::Windows16x9, best) {
            best = ResolutionFamily::Windows16x9;
        }
        if nearer(w, h, ResolutionFamily::Windows8x5, best) {
            best = ResolutionFamily::Windows8x5;
        }
        if nearer(w, h, ResolutionFamily::Windows4x3, best) {
            best = ResolutionFamily::Windows4x3;
        }
        let (p, _) = ratio_of(best);
        assert(15 * h * p <= 15 * u64::MAX * 43) by (nonlinear_arith)
            requires
                h <= u64::MAX,
                p <= 43,
        ;
        if gap_of(w, h, best) * 1000 <= 15 * h * p {
            Some(best)
        } else {
            None
        }
    }
}

} // verus!
