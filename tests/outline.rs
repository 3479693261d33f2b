use rust_fish::angle::{HALF_TURN, QUARTER_TURN};
use rust_fish::chain::Chain;
use rust_fish::outline::{
    bend_scalars, body_samples, catmull_rom_segments, front_fin, pectoral_fins, tail_samples,
    ventral_fins, Bends, FinEllipse, FinLift, FrontFin, Sample, SplineSegment, TailSample,
    TailWidth,
};

fn bent_chain() -> Chain {
    let mut chain = Chain::new(12, 22_500_000);
    chain.begin_resolve();
    for i in 1..12 {
        chain.resolve_next(Some(HALF_TURN + 10_000_000 * i));
    }
    chain.finish_resolve(Some(190_000_000));
    chain
}

#[test]
fn body_outline_has_25_points() {
    let s = body_samples(10);
    assert_eq!(s.len(), 25);
    assert_eq!(catmull_rom_segments(s.len()).len(), 22);
}

#[test]
fn body_outline_order() {
    let s = body_samples(10);
    for i in 0..10 {
        assert_eq!(s[i], Sample { joint: i, angle_offset: QUARTER_TURN, extra_length: 0 });
        assert_eq!(s[20 - i], Sample { joint: i, angle_offset: -QUARTER_TURN, extra_length: 0 });
    }
    assert_eq!(s[10], Sample { joint: 9, angle_offset: HALF_TURN, extra_length: 0 });
    assert_eq!(s[21], Sample { joint: 0, angle_offset: -30_000_000, extra_length: 0 });
    assert_eq!(s[22], Sample { joint: 0, angle_offset: 0, extra_length: 4 });
    assert_eq!(s[23], Sample { joint: 0, angle_offset: 30_000_000, extra_length: 0 });
    assert_eq!(s[24], Sample { joint: 0, angle_offset: QUARTER_TURN, extra_length: 0 });
}

#[test]
fn spline_windows() {
    let w = catmull_rom_segments(6);
    assert_eq!(w, vec![
        SplineSegment { before: 0, from: 1, to: 2, after: 3 },
        SplineSegment { before: 1, from: 2, to: 3, after: 4 },
        SplineSegment { before: 2, from: 3, to: 4, after: 5 },
    ]);
    assert!(catmull_rom_segments(3).is_empty());
    assert!(catmull_rom_segments(0).is_empty());
}

#[test]
fn tail_root_has_zero_width() {
    let t = tail_samples(12);
    assert_eq!(t.len(), 8);
    assert_eq!(t[0], TailSample { joint: 8, angle_offset: -QUARTER_TURN, width: TailWidth::Ramp(0) });
    assert_eq!(t[1].width, TailWidth::Ramp(1));
    assert_eq!(t[2].width, TailWidth::Ramp(4));
    assert_eq!(t[3], TailSample { joint: 11, angle_offset: -QUARTER_TURN, width: TailWidth::Ramp(9) });
    for k in 4..8 {
        assert_eq!(t[k], TailSample { joint: 15 - k, angle_offset: QUARTER_TURN, width: TailWidth::Edge });
    }
}

#[test]
fn bends_of_straight_chain_are_zero() {
    let chain = Chain::new(12, 22_500_000);
    assert_eq!(bend_scalars(&chain), Bends { mid: 0, far_mid: 0, tail: 0 });
}

#[test]
fn bends_of_bent_chain() {
    let chain = bent_chain();
    // Every link turns 10 degrees from the one before it.
    assert_eq!(chain.angle(0), 190_000_000);
    assert_eq!(chain.angle(6), 240_000_000);
    assert_eq!(chain.angle(11), 290_000_000);
    assert_eq!(
        bend_scalars(&chain),
        Bends { mid: 50_000_000, far_mid: 60_000_000, tail: 100_000_000 }
    );
}

#[test]
fn fins_follow_their_links() {
    let chain = bent_chain();
    let p = pectoral_fins(&chain);
    assert_eq!(p, vec![
        FinEllipse {
            anchor: Sample { joint: 3, angle_offset: 60_000_000, extra_length: 0 },
            rotation: 200_000_000 - 45_000_000,
            width: 160,
            height: 64,
        },
        FinEllipse {
            anchor: Sample { joint: 3, angle_offset: -60_000_000, extra_length: 0 },
            rotation: 200_000_000 + 45_000_000,
            width: 160,
            height: 64,
        },
    ]);
    let v = ventral_fins(&chain);
    assert_eq!(v[0].anchor, Sample { joint: 7, angle_offset: QUARTER_TURN, extra_length: 0 });
    assert_eq!(v[1].anchor, Sample { joint: 7, angle_offset: -QUARTER_TURN, extra_length: 0 });
    assert_eq!(v[0].rotation, 240_000_000 - 45_000_000);
    assert_eq!(v[1].rotation, 240_000_000 + 45_000_000);
    assert_eq!((v[0].width, v[0].height), (96, 32));
}

#[test]
fn front_fin_lifts_with_bend() {
    let chain = bent_chain();
    assert_eq!(
        front_fin(&chain),
        FrontFin {
            start: 4,
            far_lift: FinLift { joint: 6, direction: 240_000_000 - QUARTER_TURN, bend: 60_000_000 },
            near_lift: FinLift { joint: 5, direction: 230_000_000 - QUARTER_TURN, bend: 50_000_000 },
        }
    );
}
