use gridworld::actor::{decode_action, Actor, Move, StepOutcome};
use gridworld::position::Position;
use gridworld::world::GridWorldEnv;

fn pos(row: usize, col: usize) -> Position {
    Position { row, col }
}

fn actor_at(p: Position) -> Actor {
    Actor { initial_position: p, current_position: p }
}

fn step(actor: &mut Actor, world: &GridWorldEnv, action: i64) -> StepOutcome {
    actor
        .move_position(world, action)
        .expect("a decodable action never fails")
}

#[test]
fn decode_maps_indices_to_moves() {
    assert_eq!(decode_action(0), Ok(Move::Up));
    assert_eq!(decode_action(1), Ok(Move::Down));
    assert_eq!(decode_action(2), Ok(Move::Left));
    assert_eq!(decode_action(3), Ok(Move::Right));
}

#[test]
fn decode_rejects_other_indices() {
    for action in [-1i64, 4, 5, 100, i64::MIN, i64::MAX] {
        match decode_action(action) {
            Ok(_) => panic!("index {action} names no move"),
            Err(err) => assert_eq!(err.index, action),
        }
    }
}

#[test]
fn undecodable_action_leaves_actor_unchanged() {
    let world = GridWorldEnv::default();
    let mut actor = actor_at(pos(0, 0));
    let result = actor.move_position(&world, 9);
    match result {
        Ok(_) => panic!("index 9 names no move"),
        Err(err) => assert_eq!(err.index, 9),
    }
    assert_eq!(actor.current_position, pos(0, 0));
    assert_eq!(actor.initial_position, pos(0, 0));
}

#[test]
fn step_onto_open_cell_commits_and_rewards() {
    let world = GridWorldEnv::default();
    let mut actor = actor_at(pos(0, 0));
    // Moving right reduces the distance to the goal from 18 to 17:
    // reward = 1 + (18 - 17).
    let outcome = step(&mut actor, &world, 3);
    assert_eq!(outcome.position, pos(0, 1));
    assert_eq!(outcome.reward, 2);
    assert!(!outcome.reached_goal);
    assert_eq!(actor.current_position, pos(0, 1));
}

#[test]
fn step_away_from_goal_earns_base_minus_shaping() {
    let world = GridWorldEnv::default();
    let mut actor = actor_at(pos(1, 1));
    // Moving up is valid but increases the distance by one:
    // reward = 1 + (16 - 17).
    let outcome = step(&mut actor, &world, 0);
    assert_eq!(outcome.position, pos(0, 1));
    assert_eq!(outcome.reward, 0);
    assert_eq!(actor.current_position, pos(0, 1));
}

#[test]
fn step_into_wall_is_rejected_with_penalty() {
    let world = GridWorldEnv::default();
    let mut actor = actor_at(pos(1, 1));
    // Down from (1,1) hits the wall at (2,1): the position is unchanged
    // and the shaping term is zero, so the reward is exactly -2.
    let outcome = step(&mut actor, &world, 1);
    assert_eq!(outcome.position, pos(1, 1));
    assert_eq!(outcome.reward, -2);
    assert!(!outcome.reached_goal);
    assert_eq!(actor.current_position, pos(1, 1));
}

#[test]
fn step_off_grid_is_rejected_with_penalty() {
    let world = GridWorldEnv::default();
    let mut actor = actor_at(pos(0, 0));
    let up = step(&mut actor, &world, 0);
    assert_eq!(up.position, pos(0, 0));
    assert_eq!(up.reward, -2);
    let left = step(&mut actor, &world, 2);
    assert_eq!(left.position, pos(0, 0));
    assert_eq!(left.reward, -2);
    let mut far = actor_at(pos(9, 9));
    let down = step(&mut far, &world, 1);
    assert_eq!(down.position, pos(9, 9));
    let right = step(&mut far, &world, 3);
    assert_eq!(right.position, pos(9, 9));
}

#[test]
fn default_world_scenario() {
    let world = GridWorldEnv::default();
    let mut actor = actor_at(pos(0, 0));

    // Three moves right along the top row, each valid and each one cell
    // closer to the goal: reward 1 + 1 at every step.
    let first = step(&mut actor, &world, 3);
    assert_eq!(first.position, pos(0, 1));
    assert_eq!(first.reward, 2);
    let second = step(&mut actor, &world, 3);
    assert_eq!(second.position, pos(0, 2));
    assert_eq!(second.reward, 2);
    let third = step(&mut actor, &world, 3);
    assert_eq!(third.position, pos(0, 3));
    assert_eq!(third.reward, 2);

    // Down from (1,1) walks into the wall at (2,1): the actor stays put
    // and takes the penalty.
    let mut blocked = actor_at(pos(1, 1));
    let outcome = step(&mut blocked, &world, 1);
    assert_eq!(outcome.position, pos(1, 1));
    assert_eq!(outcome.reward, -2);
}

#[test]
fn reaching_the_goal_sets_the_terminal_flag() {
    let world = GridWorldEnv::default()
        .set_world_state(true, 2, 2, vec![], pos(1, 1), vec![pos(0, 0)])
        .expect("a violation-free configuration must be accepted");
    let mut actor = actor_at(pos(0, 0));
    let down = step(&mut actor, &world, 1);
    assert_eq!(down.position, pos(1, 0));
    assert!(!down.reached_goal);
    let right = step(&mut actor, &world, 3);
    assert_eq!(right.position, pos(1, 1));
    assert!(right.reached_goal);
    // reward = 1 + (1 - 0)
    assert_eq!(right.reward, 2);
}

#[test]
fn compute_reward_exact_values() {
    let goal = pos(9, 9);
    let origin = actor_at(pos(0, 0));
    assert_eq!(origin.compute_reward(pos(0, 1), goal, true), 2);
    assert_eq!(origin.compute_reward(pos(0, 0), goal, false), -2);
    let adrift = actor_at(pos(1, 0));
    // A committed step away from the goal: 1 + (17 - 18).
    assert_eq!(adrift.compute_reward(pos(0, 0), goal, true), 0);
}

#[test]
fn reset_returns_actor_to_its_start() {
    let world = GridWorldEnv::default();
    let mut actor = actor_at(pos(0, 0));
    step(&mut actor, &world, 3);
    step(&mut actor, &world, 1);
    assert_ne!(actor.current_position, pos(0, 0));
    actor.reset();
    assert_eq!(actor.current_position, pos(0, 0));
    assert_eq!(actor.initial_position, pos(0, 0));
}
