use hook::math::Velocity;
use hook::physics::bundles::ClockPhysicsBundle;
use hook::physics::bundles::CoefficientCombineRule;
use hook::physics::bundles::Collider;
use hook::physics::bundles::EnemyPhysicsBundle;
use hook::physics::bundles::FixedTilePhysicsBundle;
use hook::physics::bundles::Friction;
use hook::physics::bundles::GroundPhysicsBundle;
use hook::physics::bundles::PlayerPhysicsBundle;
use hook::physics::bundles::Restitution;
use hook::physics::bundles::RigidBody;
use hook::physics::bundles::WallPhysicsBundle;
use hook::physics::check_if_grounded;
use hook::physics::is_touched;
use hook::physics::next_state_after_physics_settle;
use hook::physics::CollisionGroups;
use hook::physics::ENEMY;
use hook::physics::GROUND;
use hook::physics::GROUND_RAY_LENGTH;
use hook::physics::NEXT_STATE;
use hook::physics::PLAYER;
use hook::physics::PROJECTILE;
use hook::physics::WALL;
use hook::GameState;

const GROUND_TILE: u64 = 10;
const WALL_TILE: u64 = 20;
const OTHER_GROUND: u64 = 11;

#[test]
fn standing_on_ground_is_grounded() {
    assert!(check_if_grounded(&vec![GROUND_TILE], &vec![GROUND_TILE, OTHER_GROUND], &vec![GROUND_TILE]));
}

#[test]
fn wall_contact_is_not_ground() {
    let grounds = vec![GROUND_TILE, OTHER_GROUND];
    assert!(!check_if_grounded(&vec![WALL_TILE], &grounds, &vec![]));
    assert!(!check_if_grounded(&vec![WALL_TILE], &grounds, &vec![WALL_TILE]));
    assert!(!check_if_grounded(&vec![WALL_TILE], &grounds, &vec![GROUND_TILE]));
}

#[test]
fn ground_touched_from_the_side_is_not_ground() {
    let grounds = vec![GROUND_TILE, OTHER_GROUND];
    assert!(!check_if_grounded(&vec![GROUND_TILE], &grounds, &vec![]));
    assert!(!check_if_grounded(&vec![GROUND_TILE], &grounds, &vec![OTHER_GROUND]));
    assert!(!check_if_grounded(&vec![GROUND_TILE], &grounds, &vec![WALL_TILE]));
}

#[test]
fn ray_without_contact_is_not_ground() {
    assert!(!check_if_grounded(&vec![], &vec![GROUND_TILE], &vec![GROUND_TILE]));
}

#[test]
fn one_confirmed_ground_among_many_contacts_is_enough() {
    let colliding = vec![WALL_TILE, OTHER_GROUND, 99, GROUND_TILE];
    let grounds = vec![OTHER_GROUND, GROUND_TILE];
    assert!(check_if_grounded(&colliding, &grounds, &vec![7, GROUND_TILE]));
    assert!(!check_if_grounded(&colliding, &grounds, &vec![7, 99, WALL_TILE]));
}

#[test]
fn nothing_registered_means_no_ground() {
    assert!(!check_if_grounded(&vec![1], &vec![], &vec![1]));
    assert!(!check_if_grounded(&vec![], &vec![], &vec![]));
}

#[test]
fn ray_is_short() {
    assert_eq!(GROUND_RAY_LENGTH, 4);
}

#[test]
fn touch_is_found_in_any_list() {
    let contacts = vec![vec![1, 2], vec![], vec![3]];
    assert!(is_touched(&contacts, 1));
    assert!(is_touched(&contacts, 3));
    assert!(!is_touched(&contacts, 4));
    assert!(!is_touched(&Vec::new(), 1));
}

#[test]
fn physics_settles_when_no_body_moves() {
    assert_eq!(NEXT_STATE, GameState::Playing);
    assert_eq!(next_state_after_physics_settle(0), Some(GameState::Playing));
    assert_eq!(next_state_after_physics_settle(1), None);
    assert_eq!(next_state_after_physics_settle(usize::MAX), None);
    assert_eq!(
        GameState::InitializingPhysics.request(next_state_after_physics_settle(0)),
        GameState::Playing
    );
}

#[test]
fn groups_are_distinct_bits() {
    assert_eq!([PLAYER, WALL, GROUND, PROJECTILE, ENEMY], [1, 2, 4, 8, 16]);
}

#[test]
fn collision_policy() {
    let player = PlayerPhysicsBundle::default().collision_groups;
    let enemy = EnemyPhysicsBundle::default().collision_groups;
    let clock = ClockPhysicsBundle::default().collision_groups;
    let ground = GroundPhysicsBundle::default().collision_groups;
    let wall = WallPhysicsBundle::default().collision_groups;

    assert_eq!(player, CollisionGroups::new(PLAYER, ENEMY | GROUND | WALL | PROJECTILE));
    assert_eq!(enemy, CollisionGroups::new(ENEMY, PLAYER | GROUND | WALL));
    assert_eq!(clock, CollisionGroups::new(PROJECTILE, PLAYER | GROUND | WALL));
    assert_eq!(ground, CollisionGroups::new(GROUND, PLAYER | ENEMY | PROJECTILE));
    assert_eq!(wall, ground);

    for tile in [ground, wall] {
        assert!(player.interacts(tile));
        assert!(enemy.interacts(tile));
        assert!(clock.interacts(tile));
        assert!(!tile.interacts(tile));
    }
    assert!(player.interacts(enemy));
    assert!(player.interacts(clock));
    assert!(!enemy.interacts(clock));
    assert!(!enemy.interacts(enemy));
    assert!(!clock.interacts(clock));
    assert!(!player.interacts(player));
}

#[test]
fn touching_is_mutual() {
    let all = [
        CollisionGroups::new(1, 2),
        CollisionGroups::new(2, 1),
        CollisionGroups::new(3, 0),
        CollisionGroups::new(0, 3),
        CollisionGroups::new(2, 2),
        CollisionGroups::new(u32::MAX, u32::MAX),
    ];
    for a in all {
        for b in all {
            assert_eq!(a.interacts(b), b.interacts(a));
        }
    }
    assert!(all[0].interacts(all[1]));
    assert!(!all[0].interacts(all[0]));
    assert!(!all[2].interacts(all[5]));
    assert!(all[4].interacts(all[5]));
}

#[test]
fn bodies_of_the_actors() {
    let still = Restitution { coefficient: 0, combine_rule: CoefficientCombineRule::Average };
    let smooth = Friction { coefficient: 0, combine_rule: CoefficientCombineRule::Average };

    let player = PlayerPhysicsBundle::default();
    assert_eq!(player.collider, Collider::Cuboid { width: 10, height: 32 });
    assert_eq!(player.rigid_body, RigidBody::Dynamic);
    assert_eq!(player.velocity, Velocity { x: 0, y: 0 });
    assert!(player.rotation_locked);
    assert_eq!(player.friction, smooth);
    assert_eq!(player.restitution, still);

    let enemy = EnemyPhysicsBundle::default();
    assert_eq!(enemy.collider, Collider::Cuboid { width: 64, height: 25 });
    assert_eq!(enemy.rigid_body, RigidBody::Dynamic);
    assert_eq!(enemy.velocity, Velocity { x: 0, y: 0 });
    assert!(enemy.rotation_locked);
    assert_eq!(enemy.friction, smooth);
    assert_eq!(enemy.restitution, still);

    let clock = ClockPhysicsBundle::default();
    assert_eq!(clock.collider, Collider::Ball { diameter: 9 });
    assert_eq!(clock.rigid_body, RigidBody::Dynamic);
    assert_eq!(clock.velocity, Velocity { x: 0, y: 0 });
}

#[test]
fn bodies_of_the_level() {
    let still = Restitution { coefficient: 0, combine_rule: CoefficientCombineRule::Average };
    let tile = FixedTilePhysicsBundle::default();
    assert_eq!(tile.collider, Collider::Cuboid { width: 32, height: 32 });
    assert_eq!(tile.rigid_body, RigidBody::Fixed);
    assert_eq!(tile.restitution, still);

    let ground = GroundPhysicsBundle::default();
    assert_eq!(ground.tile_physics, tile);
    assert_eq!(
        ground.friction,
        Friction { coefficient: 13, combine_rule: CoefficientCombineRule::Average }
    );
    assert_eq!(WallPhysicsBundle::default().tile_physics, tile);
}
