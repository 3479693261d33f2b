use crate::angle::{angle_diff, relative_angle_diff, FULL_TURN, HALF_TURN, QUARTER_TURN};
use crate::chain::{Chain, MAX_JOINTS};
use vstd::prelude::*;

verus! {

/// A sixth of a half turn (30 degrees, pi / 6).
pub const SIXTH_OF_HALF_TURN: i64 = 30_000_000;

/// A third of a half turn (60 degrees, pi / 3).
pub const THIRD_OF_HALF_TURN: i64 = 60_000_000;

/// An eighth of a turn (45 degrees, pi / 4).
pub const EIGHTH_TURN: i64 = 45_000_000;

/// How far beyond the head's width the nose reaches, in unscaled units.
pub const NOSE_LENGTH: i64 = 4;

/// The first joint of the tail fin.
pub const TAIL_ROOT: usize = 8;

/// The joints that the curvature measures compare with the head.
pub const MID_JOINT: usize = 6;

pub const FAR_MID_JOINT: usize = 7;

pub const TAIL_TIP_JOINT: usize = 11;

/// A point of an outline: at joint `joint`, in the direction of that joint's
/// angle turned by `angle_offset`, as far out as the body's half width there
/// plus `extra_length` unscaled units.
#[derive(Clone, Copy, Debug, PartialEq, Eq, Structural)]
pub struct Sample {
    pub joint: usize,
    pub angle_offset: i64,
    pub extra_length: i64,
}

/// The `k`-th point of the body outline over `n` half widths: down the top
/// side, the tail point, back along the bottom side, then the nose.
pub open spec fn body_sample(n: int, k: int) -> Sample {
    if k < n {
        Sample { joint: k as usize, angle_offset: QUARTER_TURN, extra_length: 0 }
    } else if k == n {
        Sample { joint: (n - 1) as usize, angle_offset: HALF_TURN, extra_length: 0 }
    } else if k <= 2 * n {
        Sample { joint: (2 * n - k) as usize, angle_offset: (-QUARTER_TURN) as i64, extra_length: 0 }
    } else if k == 2 * n + 1 {
        Sample { joint: 0, angle_offset: (-SIXTH_OF_HALF_TURN) as i64, extra_length: 0 }
    } else if k == 2 * n + 2 {
        Sample { joint: 0, angle_offset: 0, extra_length: NOSE_LENGTH }
    } else if k == 2 * n + 3 {
        Sample { joint: 0, angle_offset: SIXTH_OF_HALF_TURN, extra_length: 0 }
    } else {
        Sample { joint: 0, angle_offset: QUARTER_TURN, extra_length: 0 }
    }
}

/// The number of points of the body outline over `n` half widths.
pub open spec fn body_len(n: int) -> int {
    2 * n + 5
}

/// The points of the body outline, for a body of `width_count` half widths.
pub fn body_samples(width_count: usize) -> (r: Vec<Sample>)
    requires
        1 <= width_count <= MAX_JOINTS,
    ensures
        r@.len() == body_len(width_count as int),
        forall|k: int| 0 <= k < r@.len() ==> #[trigger] r@[k] == body_sample(width_count as int, k),
{
    let n = width_count;
    let mut r: Vec<Sample> = Vec::with_capacity(2 * n + 5);
    let mut i: usize = 0;
    while i < n
        invariant
            i <= n,
            n == width_count,
            1 <= n <= MAX_JOINTS,
            r@.len() == i,
            forall|k: int| 0 <= k < r@.len() ==> #[trigger] r@[k] == body_sample(n as int, k),
        decreases n - i,
    {
        r.push(Sample { joint: i, angle_offset: QUARTER_TURN, extra_length: 0 });
        i = i + 1;
    }
    r.push(Sample { joint: n - 1, angle_offset: HALF_TURN, extra_length: 0 });
    let mut j: usize = n;
    while j > 0
        invariant
            j <= n,
            n == width_count,
            1 <= n <= MAX_JOINTS,
            r@.len() == 2 * n + 1 - j,
            forall|k: int| 0 <= k < r@.len() ==> #[trigger] r@[k] == body_sample(n as int, k),
        decreases j,
    {
        j = j - 1;
        r.push(Sample { joint: j, angle_offset: -QUARTER_TURN, extra_length: 0 });
    }
    r.push(Sample { joint: 0, angle_offset: -SIXTH_OF_HALF_TURN, extra_length: 0 });
    r.push(Sample { joint: 0, angle_offset: 0, extra_length: NOSE_LENGTH });
    r.push(Sample { joint: 0, angle_offset: SIXTH_OF_HALF_TURN, extra_length: 0 });
    r.push(Sample { joint: 0, angle_offset: QUARTER_TURN, extra_length: 0 });
    r
}

/// One cubic segment of a Catmull-Rom spline through a list of points: it
/// runs from point `from` to point `to`, with tangents taken from `before`
/// and `after`.
#[derive(Clone, Copy, Debug, PartialEq, Eq, Structural)]
pub struct SplineSegment {
    pub before: usize,
    pub from: usize,
    pub to: usize,
    pub after: usize,
}

/// The segments of a spline through `point_count` points: one for each run
/// of four consecutive points.
pub fn catmull_rom_segments(point_count: usize) -> (r: Vec<SplineSegment>)
    ensures
        r@.len() == if point_count >= 3 {
            point_count - 3
        } else {
            0
        },
        forall|k: int|
            0 <= k < r@.len() ==> #[trigger] r@[k] == (SplineSegment {
                before: k as usize,
                from: (k + 1) as usize,
                to: (k + 2) as usize,
                after: (k + 3) as usize,
            }),
{
    let mut r: Vec<SplineSegment> = Vec::new();
    if point_count < 3 {
        return r;
    }
    let mut k: usize = 0;
    while k < point_count - 3
        invariant
            3 <= point_count,
            k <= point_count - 3,
            r@.len() == k,
            forall|m: int|
                0 <= m < r@.len() ==> #[trigger] r@[m] == (SplineSegment {
                    before: m as usize,
                    from: (m + 1) as usize,
                    to: (m + 2) as usize,
                    after: (m + 3) as usize,
                }),
        decreases point_count - 3 - k,
    {
        r.push(SplineSegment { before: k, from: k + 1, to: k + 2, after: k + 3 });
        k = k + 1;
    }
    r
}

/// How sharply the spine bends, as signed angle differences: from the head
/// to the middle, from the head a joint further back, and from the head to
/// the tail tip by way of the middle.
#[derive(Clone, Copy, Debug, PartialEq, Eq, Structural)]
pub struct Bends {
    pub mid: i64,
    pub far_mid: i64,
    pub tail: i64,
}

/// The curvature measures of a spine whose angles are `a`.
pub open spec fn bends_of(a: Seq<i64>) -> Bends {
    let mid = angle_diff(a[0] as int, a[MID_JOINT as int] as int);
    Bends {
        mid: mid as i64,
        far_mid: angle_diff(a[0] as int, a[FAR_MID_JOINT as int] as int) as i64,
        tail: (mid + angle_diff(a[MID_JOINT as int] as int, a[TAIL_TIP_JOINT as int] as int)) as i64,
    }
}

/// Measures how sharply the spine bends.
pub fn bend_scalars(spine: &Chain) -> (r: Bends)
    requires
        spine.wf(),
        spine.angles_view().len() > TAIL_TIP_JOINT,
    ensures
        r == bends_of(spine.angles_view()),
        -HALF_TURN < r.mid <= HALF_TURN,
        -HALF_TURN < r.far_mid <= HALF_TURN,
        -FULL_TURN < r.tail <= FULL_TURN,
{
    let mid = relative_angle_diff(spine.angle(0), spine.angle(MID_JOINT));
    let far_mid = relative_angle_diff(spine.angle(0), spine.angle(FAR_MID_JOINT));
    let tail = mid + relative_angle_diff(spine.angle(MID_JOINT), spine.angle(TAIL_TIP_JOINT));
    Bends { mid, far_mid, tail }
}

/// How far a point of the tail fin stands off the spine.
#[derive(Clone, Copy, Debug, PartialEq, Eq, Structural)]
pub enum TailWidth {
    /// The tail bend times 1.5 times this factor, the square of the point's
    /// distance in joints from the tail's root.
    Ramp(u64),
    /// The tail bend, limited to 13 radians either way, times 6.
    Edge,
}

/// A point of the tail fin: at joint `joint`, in the direction of that
/// joint's angle turned by `angle_offset`.
#[derive(Clone, Copy, Debug, PartialEq, Eq, Structural)]
pub struct TailSample {
    pub joint: usize,
    pub angle_offset: i64,
    pub width: TailWidth,
}

/// The `k`-th point of the tail fin of a spine of `count` joints: down the
/// upper edge, widening as the square of the distance from the root, then
/// back along the lower edge.
pub open spec fn tail_sample(count: int, k: int) -> TailSample {
    let m = count - TAIL_ROOT;
    if k < m {
        TailSample {
            joint: (TAIL_ROOT + k) as usize,
            angle_offset: (-QUARTER_TURN) as i64,
            width: TailWidth::Ramp((k * k) as u64),
        }
    } else {
        TailSample {
            joint: (TAIL_ROOT + 2 * m - 1 - k) as usize,
            angle_offset: QUARTER_TURN,
            width: TailWidth::Edge,
        }
    }
}

/// The points of the tail fin of a spine of `joint_count` joints, from the
/// root joint to the tip and back.
pub fn tail_samples(joint_count: usize) -> (r: Vec<TailSample>)
    requires
        TAIL_ROOT < joint_count <= MAX_JOINTS,
    ensures
        r@.len() == 2 * (joint_count - TAIL_ROOT),
        forall|k: int| 0 <= k < r@.len() ==> #[trigger] r@[k] == tail_sample(joint_count as int, k),
        r@[0] == (TailSample {
            joint: TAIL_ROOT,
            angle_offset: (-QUARTER_TURN) as i64,
            width: TailWidth::Ramp(0),
        }),
{
    let m = joint_count - TAIL_ROOT;
    let mut r: Vec<TailSample> = Vec::with_capacity(2 * m);
    let mut k: usize = 0;
    while k < m
        invariant
            m == joint_count - TAIL_ROOT,
            TAIL_ROOT < joint_count <= MAX_JOINTS,
            k <= m,
            r@.len() == k,
            forall|i: int| 0 <= i < r@.len() ==> #[trigger] r@[i] == tail_sample(joint_count as int, i),
        decreases m - k,
    {
        assert(k * k <= MAX_JOINTS * MAX_JOINTS) by (nonlinear_arith)
            requires
                k <= MAX_JOINTS,
        ;
        let ramp: u64 = (k as u64) * (k as u64);
        r.push(TailSample { joint: TAIL_ROOT + k, angle_offset: -QUARTER_TURN, width: TailWidth::Ramp(ramp) });
        k = k + 1;
    }
    let mut j: usize = m;
    while j > 0
        invariant
            m == joint_count - TAIL_ROOT,
            TAIL_ROOT < joint_count <= MAX_JOINTS,
            j <= m,
            r@.len() == 2 * m - j,
            forall|i: int| 0 <= i < r@.len() ==> #[trigger] r@[i] == tail_sample(joint_count as int, i),
        decreases j,
    {
        j = j - 1;
        r.push(TailSample { joint: TAIL_ROOT + j, angle_offset: QUARTER_TURN, width: TailWidth::Edge });
    }
    assert(r@[0] == tail_sample(joint_count as int, 0));
    r
}

/// The full width and height of a pectoral fin, in unscaled units.
pub const PECTORAL_WIDTH: i64 = 160;

pub const PECTORAL_HEIGHT: i64 = 64;

/// The full width and height of a ventral fin, in unscaled units.
pub const VENTRAL_WIDTH: i64 = 96;

pub const VENTRAL_HEIGHT: i64 = 32;

/// The joint that the pectoral fins hang from, and the link they follow.
pub const PECTORAL_JOINT: usize = 3;

pub const PECTORAL_LINK: usize = 2;

/// The joint that the ventral fins hang from; they follow the middle link.
pub const VENTRAL_JOINT: usize = 7;

/// An elliptic fin: centred on `anchor`, turned to the absolute angle
/// `rotation`, `width` by `height` unscaled units.
#[derive(Clone, Copy, Debug, PartialEq, Eq, Structural)]
pub struct FinEllipse {
    pub anchor: Sample,
    pub rotation: i64,
    pub width: i64,
    pub height: i64,
}

/// A pair of elliptic fins on either side of `joint`, each `side` away from
/// the joint's angle and turned an eighth turn toward the tail from the
/// angle of link `link`.
pub open spec fn fin_pair(a: Seq<i64>, joint: usize, side: i64, link: usize, width: i64, height: i64) -> Seq<FinEllipse> {
    seq![
        FinEllipse {
            anchor: Sample { joint, angle_offset: side, extra_length: 0 },
            rotation: (a[link as int] - EIGHTH_TURN) as i64,
            width,
            height,
        },
        FinEllipse {
            anchor: Sample { joint, angle_offset: (-side) as i64, extra_length: 0 },
            rotation: (a[link as int] + EIGHTH_TURN) as i64,
            width,
            height,
        },
    ]
}

fn make_fin_pair(spine: &Chain, joint: usize, side: i64, link: usize, width: i64, height: i64) -> (r: Vec<FinEllipse>)
    requires
        spine.wf(),
        link < spine.angles_view().len(),
        0 <= side <= HALF_TURN,
    ensures
        r@ == fin_pair(spine.angles_view(), joint, side, link, width, height),
{
    let a = spine.angle(link);
    let mut r: Vec<FinEllipse> = Vec::with_capacity(2);
    r.push(FinEllipse {
        anchor: Sample { joint, angle_offset: side, extra_length: 0 },
        rotation: a - EIGHTH_TURN,
        width,
        height,
    });
    r.push(FinEllipse {
        anchor: Sample { joint, angle_offset: -side, extra_length: 0 },
        rotation: a + EIGHTH_TURN,
        width,
        height,
    });
    assert(r@ =~= fin_pair(spine.angles_view(), joint, side, link, width, height));
    r
}

/// The two pectoral fins: either side of joint 3, a third of a half turn
/// off its angle, following link 2.
pub fn pectoral_fins(spine: &Chain) -> (r: Vec<FinEllipse>)
    requires
        spine.wf(),
        spine.angles_view().len() > PECTORAL_JOINT,
    ensures
        r@ == fin_pair(
            spine.angles_view(),
            PECTORAL_JOINT,
            THIRD_OF_HALF_TURN,
            PECTORAL_LINK,
            PECTORAL_WIDTH,
            PECTORAL_HEIGHT,
        ),
{
    make_fin_pair(spine, PECTORAL_JOINT, THIRD_OF_HALF_TURN, PECTORAL_LINK, PECTORAL_WIDTH, PECTORAL_HEIGHT)
}

/// The two ventral fins: either side of joint 7, square to its angle,
/// following the middle link.
pub fn ventral_fins(spine: &Chain) -> (r: Vec<FinEllipse>)
    requires
        spine.wf(),
        spine.angles_view().len() > VENTRAL_JOINT,
    ensures
        r@ == fin_pair(
            spine.angles_view(),
            VENTRAL_JOINT,
            QUARTER_TURN,
            MID_JOINT,
            VENTRAL_WIDTH,
            VENTRAL_HEIGHT,
        ),
{
    make_fin_pair(spine, VENTRAL_JOINT, QUARTER_TURN, MID_JOINT, VENTRAL_WIDTH, VENTRAL_HEIGHT)
}

/// The first of the four joints along which the front fin's leading edge runs.
pub const FRONT_FIN_START: usize = 4;

/// How far a lifted control point of the front fin stands off the spine per
/// radian of bend, in unscaled units.
pub const LIFT_PER_RADIAN: i64 = 16;

/// A control point of the front fin's trailing edge: joint `joint` moved in
/// the absolute direction `direction` by `bend` (an angle, read in radians)
/// times `LIFT_PER_RADIAN`.
#[derive(Clone, Copy, Debug, PartialEq, Eq, Structural)]
pub struct FinLift {
    pub joint: usize,
    pub direction: i64,
    pub bend: i64,
}

/// The front fin: a cubic from joint `start` through joints `start + 1` and
/// `start + 2` to joint `start + 3`, and back to joint `start` through
/// `far_lift` and then `near_lift`.
#[derive(Clone, Copy, Debug, PartialEq, Eq, Structural)]
pub struct FrontFin {
    pub start: usize,
    pub far_lift: FinLift,
    pub near_lift: FinLift,
}

/// The front fin of a spine whose angles are `a`: its trailing edge bulges
/// square to the spine, as far as the spine bends.
pub open spec fn front_fin_of(a: Seq<i64>) -> FrontFin {
    let b = bends_of(a);
    FrontFin {
        start: FRONT_FIN_START,
        far_lift: FinLift {
            joint: MID_JOINT,
            direction: (a[MID_JOINT as int] - QUARTER_TURN) as i64,
            bend: b.far_mid,
        },
        near_lift: FinLift {
            joint: (MID_JOINT - 1) as usize,
            direction: (a[MID_JOINT - 1] - QUARTER_TURN) as i64,
            bend: b.mid,
        },
    }
}

/// Plans the front fin.
pub fn front_fin(spine: &Chain) -> (r: FrontFin)
    requires
        spine.wf(),
        spine.angles_view().len() > TAIL_TIP_JOINT,
    ensures
        r == front_fin_of(spine.angles_view()),
{
    let b = bend_scalars(spine);
    FrontFin {
        start: FRONT_FIN_START,
        far_lift: FinLift {
            joint: MID_JOINT,
            direction: spine.angle(MID_JOINT) - QUARTER_TURN,
            bend: b.far_mid,
        },
        near_lift: FinLift {
            joint: MID_JOINT - 1,
            direction: spine.angle(MID_JOINT - 1) - QUARTER_TURN,
            bend: b.mid,
        },
    }
}

} // verus!
