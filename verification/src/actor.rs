use vstd::prelude::*;

use crate::position::{manhattan_distance, Position};
use crate::world::GridWorldEnv;

verus! {

/// The four moves an actor can make. There is no diagonal and no "stay"
/// move: every decoded action shifts exactly one coordinate by one cell.
#[derive(Clone, Copy, Debug, PartialEq, Eq, Structural)]
pub enum Move {
    Up,
    Down,
    Left,
    Right,
}

/// Step-time error: the raw action signal named none of the four moves.
/// It is fatal to the current step and carries the rejected index back to
/// the caller.
#[derive(Clone, Copy, Debug, PartialEq, Eq, Structural)]
pub struct ActionDecodeError {
    pub index: i64,
}

/// What one step call hands back: the actor's resulting cell, the reward
/// earned, and whether that cell is the goal (the episode success signal).
#[derive(Clone, Copy, Debug, PartialEq, Eq, Structural)]
pub struct StepOutcome {
    pub position: Position,
    pub reward: i128,
    pub reached_goal: bool,
}

/// The fixed index-to-direction mapping of the action signal.
pub open spec fn decoded_move(action: i64) -> Option<Move> {
    if action == 0 {
        Some(Move::Up)
    } else if action == 1 {
        Some(Move::Down)
    } else if action == 2 {
        Some(Move::Left)
    } else if action == 3 {
        Some(Move::Right)
    } else {
        None
    }
}

/// Decodes an action index into a move: 0 is up, 1 is down, 2 is left,
/// 3 is right; every other index is a decode error naming that index.
pub fn decode_action(action: i64) -> (result: Result<Move, ActionDecodeError>)
    ensures
        match result {
            Ok(m) => decoded_move(action) == Some(m),
            Err(err) => decoded_move(action) is None && err.index == action,
        },
{
    match action {
        0 => Ok(Move::Up),
        1 => Ok(Move::Down),
        2 => Ok(Move::Left),
        3 => Ok(Move::Right),
        _ => Err(ActionDecodeError { index: action }),
    }
}

/// The cell one step in the given direction, or nothing when the step
/// would leave the coordinate range itself. Position arithmetic never
/// wraps around: a move below zero or beyond the largest coordinate is an
/// out-of-bounds candidate, and such a candidate always fails validation,
/// because a grid dimension never exceeds the coordinate range.
pub open spec fn spec_step_target(p: Position, m: Move) -> Option<Position> {
    match m {
        Move::Up => if p.row == 0 {
            None
        } else {
            Some(Position { row: (p.row - 1) as usize, col: p.col })
        },
        Move::Down => if p.row == usize::MAX {
            None
        } else {
            Some(Position { row: (p.row + 1) as usize, col: p.col })
        },
        Move::Left => if p.col == 0 {
            None
        } else {
            Some(Position { row: p.row, col: (p.col - 1) as usize })
        },
        Move::Right => if p.col == usize::MAX {
            None
        } else {
            Some(Position { row: p.row, col: (p.col + 1) as usize })
        },
    }
}

/// Computes the candidate cell of a move without ever wrapping a
/// coordinate around.
pub fn step_target(p: Position, m: Move) -> (target: Option<Position>)
    ensures
        target == spec_step_target(p, m),
{
    match m {
        Move::Up => if p.row == 0 {
            None
        } else {
            Some(Position { row: p.row - 1, col: p.col })
        },
        Move::Down => if p.row == usize::MAX {
            None
        } else {
            Some(Position { row: p.row + 1, col: p.col })
        },
        Move::Left => if p.col == 0 {
            None
        } else {
            Some(Position { row: p.row, col: p.col - 1 })
        },
        Move::Right => if p.col == usize::MAX {
            None
        } else {
            Some(Position { row: p.row, col: p.col + 1 })
        },
    }
}

/// The reward of one step that moves the actor from `previous` to
/// `resulting`: a base of +1 for a committed move or -2 for a rejected
/// one, plus the reduction in Manhattan distance to the goal achieved by
/// the step. A rejected step leaves the position unchanged, so its shaping
/// term is zero and its reward is exactly -2.
pub open spec fn spec_reward(
    previous: Position,
    resulting: Position,
    end_position: Position,
    valid_move: bool,
) -> int {
    (if valid_move {
        1int
    } else {
        -2int
    }) + previous.manhattan(end_position) - resulting.manhattan(end_position)
}

/// A step was committed: the actor stands on the target cell, the outcome
/// reports that cell with the valid-move reward, and the episode succeeds
/// exactly when the target is the goal.
pub open spec fn committed_step(
    actor_before: Actor,
    actor_after: Actor,
    outcome: StepOutcome,
    target: Position,
    end_position: Position,
) -> bool {
    &&& actor_after.current_position == target
    &&& outcome.position == target
    &&& outcome.reward == spec_reward(actor_before.current_position, target, end_position, true)
    &&& outcome.reached_goal == (target == end_position)
}

/// A step was rejected: the actor keeps its cell, and the outcome reports
/// that unchanged cell with the invalid-move penalty.
pub open spec fn rejected_step(
    actor_before: Actor,
    actor_after: Actor,
    outcome: StepOutcome,
    end_position: Position,
) -> bool {
    &&& actor_after.current_position == actor_before.current_position
    &&& outcome.position == actor_before.current_position
    &&& outcome.reward == spec_reward(
        actor_before.current_position,
        actor_before.current_position,
        end_position,
        false,
    )
    &&& outcome.reached_goal == (actor_before.current_position == end_position)
}

/// A mobile agent on the grid.
///
/// The initial position is fixed at creation and only read back by `reset`;
/// the current position changes exactly once per committed step.
#[derive(Clone, Copy, Debug)]
pub struct Actor {
    pub initial_position: Position,
    pub current_position: Position,
}

impl Actor {
    /// The actor sits legally on the given world's grid: its starting cell
    /// is in bounds, off the goal and off every wall, and its current cell
    /// is in bounds and off every wall. The current cell may be the goal:
    /// entering the goal is the success condition, not a violation.
    pub open spec fn consistent_with(self, world: GridWorldEnv) -> bool {
        &&& self.initial_position.in_bounds(world.length, world.width)
        &&& self.initial_position != world.end_position
        &&& !world.is_wall(self.initial_position)
        &&& self.current_position.in_bounds(world.length, world.width)
        &&& !world.is_wall(self.current_position)
    }

    /// Returns the actor to its starting cell, as at the beginning of an
    /// episode. The starting cell itself never changes.
    pub fn reset(&mut self)
        ensures
            final(self).initial_position == old(self).initial_position,
            final(self).current_position == old(self).initial_position,
    {
        self.current_position = self.initial_position;
    }

    /// The reward for a step that ends with the actor at `position`, where
    /// the actor's current cell is the position before the step. The
    /// reward is the base term for the move's validity plus the reduction
    /// in Manhattan distance to `end_position` the step achieves.
    pub fn compute_reward(
        &self,
        position: Position,
        end_position: Position,
        valid_move: bool,
    ) -> (reward: i128)
        ensures
            reward == spec_reward(self.current_position, position, end_position, valid_move),
    {
        let base: i128 = if valid_move {
            1
        } else {
            -2
        };
        let previous_distance: u128 = manhattan_distance(self.current_position, end_position);
        let new_distance: u128 = manhattan_distance(position, end_position);
        base + (previous_distance as i128 - new_distance as i128)
    }

    /// One step of the simulation: decodes the action into a move, asks
    /// the world whether the resulting cell may be entered, and commits or
    /// rejects the move. A rejected move is a normal outcome with the
    /// penalty reward, never an error; an action index naming no move is
    /// the only failure path. The actor's starting cell never changes, and
    /// an actor that sat legally on the grid still does afterward.
    pub fn move_position(&mut self, state: &GridWorldEnv, action: i64) -> (result: Result<
        StepOutcome,
        ActionDecodeError,
    >)
        ensures
            final(self).initial_position == old(self).initial_position,
            match result {
                Ok(outcome) => match decoded_move(action) {
                    Some(m) => match spec_step_target(old(self).current_position, m) {
                        Some(target) => if state.is_valid_move(target) {
                            committed_step(
                                *old(self),
                                *final(self),
                                outcome,
                                target,
                                state.end_position,
                            )
                        } else {
                            rejected_step(*old(self), *final(self), outcome, state.end_position)
                        },
                        None => rejected_step(*old(self), *final(self), outcome, state.end_position),
                    },
                    None => false,
                },
                Err(err) => {
                    &&& decoded_move(action) is None
                    &&& err.index == action
                    &&& *final(self) == *old(self)
                },
            },
            old(self).consistent_with(*state) ==> final(self).consistent_with(*state),
    {
        let mv = match decode_action(action) {
            Ok(m) => m,
            Err(err) => {
                return Err(err);
            },
        };
        let committed: Option<Position> = match step_target(self.current_position, mv) {
            Some(target) => if state.validate_move(target) {
                Some(target)
            } else {
                None
            },
            None => None,
        };
        match committed {
            Some(target) => {
                let reward = self.compute_reward(target, state.end_position, true);
                self.current_position = target;
                Ok(
                    StepOutcome {
                        position: target,
                        reward,
                        reached_goal: target == state.end_position,
                    },
                )
            },
            None => {
                let reward = self.compute_reward(self.current_position, state.end_position, false);
                Ok(
                    StepOutcome {
                        position: self.current_position,
                        reward,
                        reached_goal: self.current_position == state.end_position,
                    },
                )
            },
        }
    }
}

} // verus!
