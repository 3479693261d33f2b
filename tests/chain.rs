use rust_fish::angle::{relative_angle_diff, HALF_TURN};
use rust_fish::chain::Chain;

/// Runs one pass with the given measured directions and heading.
fn pass(chain: &mut Chain, measured: &[Option<i64>], heading: Option<i64>) -> Vec<i64> {
    chain.begin_resolve();
    let mut placed = Vec::new();
    for m in measured {
        placed.push(chain.resolve_next(*m));
    }
    chain.finish_resolve(heading);
    placed
}

fn angles(chain: &Chain) -> Vec<i64> {
    (0..chain.len()).map(|i| chain.angle(i)).collect()
}

#[test]
fn new_chain_points_back() {
    let chain = Chain::new(12, 22_500_000);
    assert_eq!(chain.len(), 12);
    assert_eq!(angles(&chain), vec![HALF_TURN; 12]);
    assert_eq!(chain.angle_constraint(), 22_500_000);
    assert_eq!(chain.next_link(), 12);
}

#[test]
fn empty_chain_pass() {
    let mut chain = Chain::new(0, 0);
    chain.begin_resolve();
    assert_eq!(chain.next_link(), 0);
    chain.finish_resolve(Some(5));
    assert_eq!(chain.len(), 0);
}

#[test]
fn straight_chain_resolved_at_head_stays() {
    // Three joints at (0,0), (10,0), (20,0); the head stays at (0,0). Every
    // old joint lies straight back along -X from its parent: half a turn.
    let mut chain = Chain::new(3, HALF_TURN);
    let placed = pass(&mut chain, &[Some(HALF_TURN), Some(HALF_TURN)], Some(HALF_TURN));
    assert_eq!(placed, vec![HALF_TURN, HALF_TURN]);
    assert_eq!(angles(&chain), vec![HALF_TURN; 3]);
}

#[test]
fn zero_limit_holds_link_rigid() {
    // Two joints; the head moves to (0,10). The old neck joint (10,0) lies at
    // 135 degrees from there, but a zero limit keeps the link at half a turn.
    let mut chain = Chain::new(2, 0);
    let placed = pass(&mut chain, &[Some(135_000_000)], Some(HALF_TURN));
    assert_eq!(placed, vec![HALF_TURN]);
    assert_eq!(angles(&chain), vec![HALF_TURN, HALF_TURN]);
}

#[test]
fn links_turn_at_most_the_limit() {
    let limit = 22_500_000;
    let mut chain = Chain::new(12, limit);
    chain.begin_resolve();
    let mut placed = Vec::new();
    for i in 1..12 {
        placed.push(chain.resolve_next(Some(i * 40_000_000)));
    }
    // The neck turns from half a turn toward 40 degrees: the short way is
    // down, by the whole limit.
    assert_eq!(placed[0], HALF_TURN - limit);
    chain.finish_resolve(Some(placed[0].rem_euclid(360_000_000)));
    let a = angles(&chain);
    for i in 1..12 {
        let d = relative_angle_diff(a[i - 1], a[i]);
        assert!(-limit <= d && d <= limit, "link {} turns {}", i, d);
        assert_eq!(a[i], placed[i - 1]);
    }
}

#[test]
fn first_link_turns_from_old_heading() {
    let mut chain = Chain::new(3, 22_500_000);
    let placed = pass(&mut chain, &[Some(170_000_000), Some(100_000_000)], Some(170_000_000));
    assert_eq!(placed, vec![170_000_000, 147_500_000]);
    assert_eq!(angles(&chain), vec![170_000_000, 170_000_000, 147_500_000]);
}

#[test]
fn missing_direction_keeps_previous_angle() {
    let mut chain = Chain::new(3, 22_500_000);
    pass(&mut chain, &[Some(170_000_000), Some(170_000_000)], Some(170_000_000));
    let placed = pass(&mut chain, &[None, None], None);
    assert_eq!(placed, vec![170_000_000, 170_000_000]);
    assert_eq!(angles(&chain), vec![170_000_000, 170_000_000, 170_000_000]);
}

#[test]
fn unmoved_chain_keeps_directions() {
    let mut chain = Chain::new(4, 22_500_000);
    pass(&mut chain, &[Some(170_000_000), Some(150_000_000), Some(140_000_000)], Some(170_000_000));
    let before = angles(&chain);
    // Measuring every joint again where it lies gives each link's own
    // direction, taken into [0, a full turn].
    let measured: Vec<Option<i64>> = before[1..].iter().map(|a| Some(a.rem_euclid(360_000_000))).collect();
    pass(&mut chain, &measured, Some(before[0]));
    assert_eq!(angles(&chain), before);
}
