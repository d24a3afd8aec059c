use neokin::links::Joint;
use neokin::links::Link;
use neokin::links::Revolute;
use neokin::links::Vec2;
use neokin::robot::RobotConfiguration;
use neokin::robot::RobotError;
use neokin::trig::FULL_TURN;
use neokin::trig::QUARTER_TURN;

fn chain(origin: Vec2, thetas: &[i64], lens: &[i64]) -> RobotConfiguration {
    assert_eq!(thetas.len(), lens.len());
    let joints = thetas
        .iter()
        .map(|&theta| Joint { mode: Revolute { theta, omega: 0 } })
        .collect();
    let links = lens.iter().map(|&len| Link { len }).collect();
    let config = RobotConfiguration { origin, joints, links };
    assert!(config.is_well_formed());
    config
}

#[test]
fn default_configuration_is_one_stock_joint_at_the_origin() {
    let config = RobotConfiguration::default();
    assert_eq!(config.origin, Vec2 { x: 0, y: 0 });
    assert_eq!(config.joints.len(), 1);
    assert_eq!(config.joints[0].mode.theta, 0);
    assert_eq!(config.links.len(), 1);
    assert_eq!(config.links[0].len, 200_000_000);
    assert!(config.is_well_formed());
}

#[test]
fn resolve_returns_one_position_per_joint() {
    let config = chain(
        Vec2 { x: 0, y: 0 },
        &[0, QUARTER_TURN, FULL_TURN],
        &[100_000_000, 50_000_000, 30_000_000],
    );
    assert_eq!(config.resolve().len(), config.joints.len());
    assert_eq!(RobotConfiguration::default().resolve().len(), 1);
}

#[test]
fn single_joint_at_rest_resolves_along_the_x_axis() {
    let config = chain(Vec2 { x: 0, y: 0 }, &[0], &[100_000_000]);
    assert_eq!(config.resolve(), vec![Vec2 { x: 100_000_000, y: 0 }]);
}

#[test]
fn single_joint_at_a_quarter_turn_resolves_along_the_y_axis() {
    let config = chain(Vec2 { x: 0, y: 0 }, &[QUARTER_TURN], &[100_000_000]);
    assert_eq!(config.resolve(), vec![Vec2 { x: 0, y: 100_000_000 }]);
}

#[test]
fn two_joints_at_rest_resolve_stretched_along_the_x_axis() {
    let config = chain(Vec2 { x: 0, y: 0 }, &[0, 0], &[100_000_000, 50_000_000]);
    assert_eq!(
        config.resolve(),
        vec![Vec2 { x: 100_000_000, y: 0 }, Vec2 { x: 150_000_000, y: 0 }]
    );
}

#[test]
fn resolving_twice_yields_identical_positions() {
    let config = chain(
        Vec2 { x: 2_500_000, y: -1_250_000 },
        &[123_456, 3_210_987, QUARTER_TURN],
        &[100_000_000, 50_000_000, 75_000_000],
    );
    assert_eq!(config.resolve(), config.resolve());
}

#[test]
fn resolve_starts_from_the_origin() {
    let config = chain(Vec2 { x: 10_000_000, y: 20_000_000 }, &[0], &[100_000_000]);
    assert_eq!(config.resolve(), vec![Vec2 { x: 110_000_000, y: 20_000_000 }]);
}

#[test]
fn setting_an_angle_out_of_bounds_fails_and_changes_nothing() {
    let mut config = chain(Vec2 { x: 0, y: 0 }, &[0, 0], &[100_000_000, 50_000_000]);
    let before = config.resolve();
    let result = config.set_joint_angle(5, 100_000);
    assert_eq!(result, Err(RobotError::InvalidIndex));
    assert_eq!(config.joints[0].mode.theta, 0);
    assert_eq!(config.joints[1].mode.theta, 0);
    assert_eq!(config.resolve(), before);
}

#[test]
fn setting_an_angle_saturates_like_the_joint_itself() {
    let mut config = chain(Vec2 { x: 0, y: 0 }, &[0, 0], &[100_000_000, 50_000_000]);
    assert_eq!(config.set_joint_angle(1, 63_661_977), Ok(()));
    assert_eq!(config.joints[1].mode.theta, FULL_TURN);
    assert_eq!(config.joints[0].mode.theta, 0);
}

#[test]
fn mutating_a_joint_moves_it_and_everything_downstream_only() {
    let mut config = chain(
        Vec2 { x: 0, y: 0 },
        &[0, 0, 0],
        &[100_000_000, 50_000_000, 30_000_000],
    );
    let before = config.resolve();
    assert_eq!(config.set_joint_angle(1, QUARTER_TURN), Ok(()));
    let after = config.resolve();

    // Upstream of the mutated joint: unchanged.
    assert_eq!(after[0], before[0]);

    // The mutated joint and everything after it: moved, and all by the
    // same vector, the change in joint 1's own displacement.
    assert_ne!(after[1], before[1]);
    assert_ne!(after[2], before[2]);
    let shift = (after[1].x - before[1].x, after[1].y - before[1].y);
    assert_eq!(shift, (-50_000_000, 50_000_000));
    assert_eq!((after[2].x - before[2].x, after[2].y - before[2].y), shift);

    assert_eq!(after[1], Vec2 { x: 100_000_000, y: 50_000_000 });
    assert_eq!(after[2], Vec2 { x: 130_000_000, y: 50_000_000 });
}

#[test]
fn well_formedness_demands_as_many_links_as_joints() {
    let mut config = chain(Vec2 { x: 0, y: 0 }, &[0, 0], &[100_000_000, 50_000_000]);
    assert!(config.is_well_formed());
    config.links.pop();
    assert!(!config.is_well_formed());
}

#[test]
fn well_formedness_demands_angles_within_the_stops() {
    let mut config = chain(Vec2 { x: 0, y: 0 }, &[0], &[100_000_000]);
    config.joints[0].mode.theta = FULL_TURN + 1;
    assert!(!config.is_well_formed());
    config.joints[0].mode.theta = -1;
    assert!(!config.is_well_formed());
    config.joints[0].mode.theta = FULL_TURN;
    assert!(config.is_well_formed());
}

#[test]
fn well_formedness_demands_nonnegative_bounded_lengths() {
    let mut config = chain(Vec2 { x: 0, y: 0 }, &[0], &[100_000_000]);
    config.links[0].len = -1;
    assert!(!config.is_well_formed());
    config.links[0].len = 1_000_000_000_001;
    assert!(!config.is_well_formed());
}

#[test]
fn an_empty_chain_resolves_to_no_positions() {
    let config = chain(Vec2 { x: 1_000_000, y: 2_000_000 }, &[], &[]);
    assert_eq!(config.resolve(), vec![]);
}
