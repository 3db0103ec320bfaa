use vstd::prelude::*;

use crate::actor::Actor;
use crate::position::Position;

verus! {

/// One reason a proposed world configuration is rejected: the offending
/// cell, together with the bound it breaks or the cell it collides with.
#[derive(Clone, Copy, Debug, PartialEq, Eq, Structural)]
pub enum Violation {
    /// The goal cell's row is at or beyond the grid length.
    GoalBeyondLength { goal: Position, length: usize },
    /// The goal cell's column is at or beyond the grid width.
    GoalBeyondWidth { goal: Position, width: usize },
    /// A wall's row is at or beyond the grid length.
    WallBeyondLength { wall: Position, length: usize },
    /// A wall's column is at or beyond the grid width.
    WallBeyondWidth { wall: Position, width: usize },
    /// A wall sits on the goal cell.
    WallAtGoal { wall: Position, goal: Position },
    /// An actor's starting row is at or beyond the grid length.
    ActorBeyondLength { actor: Position, length: usize },
    /// An actor's starting column is at or beyond the grid width.
    ActorBeyondWidth { actor: Position, width: usize },
    /// An actor starts on the goal cell.
    ActorAtGoal { actor: Position, goal: Position },
    /// An actor starts on a wall.
    ActorOnWall { actor: Position, wall: Position },
}

/// Construction-time error. Every violation found in one construction
/// attempt is reported together, so a caller can mend its configuration in
/// a single pass.
#[derive(Debug, PartialEq, Eq)]
pub struct ConfigError {
    pub violations: Vec<Violation>,
}

/// The violations the goal cell contributes: its bounds, in
/// row-then-column order. A goal outside the grid could never be entered,
/// so no episode on such a world could succeed.
pub open spec fn goal_violations(goal: Position, length: usize, width: usize) -> Seq<Violation> {
    (if goal.row >= length {
        seq![Violation::GoalBeyondLength { goal, length }]
    } else {
        Seq::empty()
    }) + (if goal.col >= width {
        seq![Violation::GoalBeyondWidth { goal, width }]
    } else {
        Seq::empty()
    })
}

/// The violations a single wall contributes: bounds in row-then-column
/// order, then the goal collision.
pub open spec fn cell_wall_violations(
    wall: Position,
    goal: Position,
    length: usize,
    width: usize,
) -> Seq<Violation> {
    (if wall.row >= length {
        seq![Violation::WallBeyondLength { wall, length }]
    } else {
        Seq::empty()
    }) + (if wall.col >= width {
        seq![Violation::WallBeyondWidth { wall, width }]
    } else {
        Seq::empty()
    }) + (if wall == goal {
        seq![Violation::WallAtGoal { wall, goal }]
    } else {
        Seq::empty()
    })
}

/// The violations of the wall pass, one wall after the other.
pub open spec fn wall_violations(
    walls: Seq<Position>,
    goal: Position,
    length: usize,
    width: usize,
) -> Seq<Violation>
    decreases walls.len(),
{
    if walls.len() == 0 {
        Seq::empty()
    } else {
        wall_violations(walls.drop_last(), goal, length, width) + cell_wall_violations(
            walls.last(),
            goal,
            length,
            width,
        )
    }
}

/// One collision entry for every wall the actor's starting cell sits on,
/// in wall order.
pub open spec fn actor_wall_collisions(actor: Position, walls: Seq<Position>) -> Seq<Violation>
    decreases walls.len(),
{
    if walls.len() == 0 {
        Seq::empty()
    } else {
        actor_wall_collisions(actor, walls.drop_last()) + (if walls.last() == actor {
            seq![Violation::ActorOnWall { actor, wall: walls.last() }]
        } else {
            Seq::empty()
        })
    }
}

/// The violations a single actor start contributes: bounds in
/// row-then-column order, the goal collision, then its wall collisions.
pub open spec fn cell_actor_violations(
    actor: Position,
    walls: Seq<Position>,
    goal: Position,
    length: usize,
    width: usize,
) -> Seq<Violation> {
    (if actor.row >= length {
        seq![Violation::ActorBeyondLength { actor, length }]
    } else {
        Seq::empty()
    }) + (if actor.col >= width {
        seq![Violation::ActorBeyondWidth { actor, width }]
    } else {
        Seq::empty()
    }) + (if actor == goal {
        seq![Violation::ActorAtGoal { actor, goal }]
    } else {
        Seq::empty()
    }) + actor_wall_collisions(actor, walls)
}

/// The violations of the actor pass, one actor after the other.
pub open spec fn actor_violations(
    actors: Seq<Position>,
    walls: Seq<Position>,
    goal: Position,
    length: usize,
    width: usize,
) -> Seq<Violation>
    decreases actors.len(),
{
    if actors.len() == 0 {
        Seq::empty()
    } else {
        actor_violations(actors.drop_last(), walls, goal, length, width) + cell_actor_violations(
            actors.last(),
            walls,
            goal,
            length,
            width,
        )
    }
}

/// Everything wrong with a proposed configuration: first the goal pass,
/// then the wall pass, then the actor pass. Construction succeeds exactly
/// when this is empty.
pub open spec fn config_violations(
    walls: Seq<Position>,
    end_position: Position,
    length: usize,
    width: usize,
    initial_actor_positions: Seq<Position>,
) -> Seq<Violation> {
    goal_violations(end_position, length, width) + wall_violations(
        walls,
        end_position,
        length,
        width,
    ) + actor_violations(initial_actor_positions, walls, end_position, length, width)
}

/// A wall is admissible when it lies within the grid and off the goal.
pub open spec fn wall_ok(wall: Position, goal: Position, length: usize, width: usize) -> bool {
    wall.in_bounds(length, width) && wall != goal
}

/// An actor start is admissible when it lies within the grid, off the
/// goal, and off every wall.
pub open spec fn actor_ok(
    actor: Position,
    walls: Seq<Position>,
    goal: Position,
    length: usize,
    width: usize,
) -> bool {
    actor.in_bounds(length, width) && actor != goal && !walls.contains(actor)
}

/// The wall pass reports nothing exactly when every wall is admissible.
pub proof fn lemma_wall_violations_empty(
    walls: Seq<Position>,
    goal: Position,
    length: usize,
    width: usize,
)
    ensures
        wall_violations(walls, goal, length, width).len() == 0 <==> forall|i: int|
            0 <= i < walls.len() ==> wall_ok(#[trigger] walls[i], goal, length, width),
    decreases walls.len(),
{
    if walls.len() > 0 {
        let prefix = walls.drop_last();
        lemma_wall_violations_empty(prefix, goal, length, width);
        if wall_violations(walls, goal, length, width).len() == 0 {
            assert(cell_wall_violations(walls.last(), goal, length, width).len() == 0);
            assert forall|i: int|
                0 <= i < walls.len() implies wall_ok(
                #[trigger] walls[i],
                goal,
                length,
                width,
            ) by {
                if i < walls.len() - 1 {
                    assert(prefix[i] == walls[i]);
                    assert(wall_ok(prefix[i], goal, length, width));
                } else {
                    assert(walls[i] == walls.last());
                }
            }
        }
        if forall|i: int| 0 <= i < walls.len() ==> wall_ok(#[trigger] walls[i], goal, length, width) {
            assert forall|i: int|
                0 <= i < prefix.len() implies wall_ok(
                #[trigger] prefix[i],
                goal,
                length,
                width,
            ) by {
                assert(prefix[i] == walls[i]);
            }
            assert(wall_ok(walls[walls.len() - 1], goal, length, width));
            assert(cell_wall_violations(walls.last(), goal, length, width).len() == 0);
        }
    }
}

/// An actor's wall scan reports nothing exactly when the actor starts on
/// no wall.
pub proof fn lemma_actor_wall_collisions_empty(actor: Position, walls: Seq<Position>)
    ensures
        actor_wall_collisions(actor, walls).len() == 0 <==> !walls.contains(actor),
    decreases walls.len(),
{
    if walls.len() > 0 {
        lemma_actor_wall_collisions_empty(actor, walls.drop_last());
        if walls.contains(actor) {
            let i = choose|i: int| 0 <= i < walls.len() && walls[i] == actor;
            if i < walls.len() - 1 {
                assert(walls.drop_last()[i] == actor);
                assert(walls.drop_last().contains(actor));
            } else {
                assert(walls.last() == actor);
            }
        }
        if walls.drop_last().contains(actor) {
            let i = choose|i: int| 0 <= i < walls.drop_last().len() && walls.drop_last()[i] == actor;
            assert(walls[i] == actor);
            assert(walls.contains(actor));
        }
        if walls.last() == actor {
            assert(walls[walls.len() - 1] == actor);
            assert(walls.contains(actor));
        }
    }
}

/// The actor pass reports nothing exactly when every actor start is
/// admissible.
pub proof fn lemma_actor_violations_empty(
    actors: Seq<Position>,
    walls: Seq<Position>,
    goal: Position,
    length: usize,
    width: usize,
)
    ensures
        actor_violations(actors, walls, goal, length, width).len() == 0 <==> forall|j: int|
            0 <= j < actors.len() ==> actor_ok(#[trigger] actors[j], walls, goal, length, width),
    decreases actors.len(),
{
    if actors.len() > 0 {
        let prefix = actors.drop_last();
        lemma_actor_violations_empty(prefix, walls, goal, length, width);
        lemma_actor_wall_collisions_empty(actors.last(), walls);
        if actor_violations(actors, walls, goal, length, width).len() == 0 {
            assert(cell_actor_violations(actors.last(), walls, goal, length, width).len() == 0);
            assert forall|j: int|
                0 <= j < actors.len() implies actor_ok(
                #[trigger] actors[j],
                walls,
                goal,
                length,
                width,
            ) by {
                if j < actors.len() - 1 {
                    assert(prefix[j] == actors[j]);
                    assert(actor_ok(prefix[j], walls, goal, length, width));
                } else {
                    assert(actors[j] == actors.last());
                }
            }
        }
        if forall|j: int|
            0 <= j < actors.len() ==> actor_ok(#[trigger] actors[j], walls, goal, length, width) {
            assert forall|j: int|
                0 <= j < prefix.len() implies actor_ok(
                #[trigger] prefix[j],
                walls,
                goal,
                length,
                width,
            ) by {
                assert(prefix[j] == actors[j]);
            }
            assert(actor_ok(actors[actors.len() - 1], walls, goal, length, width));
            assert(cell_actor_violations(actors.last(), walls, goal, length, width).len() == 0);
        }
    }
}

/// Validation accepts a configuration exactly when the goal cell lies
/// within the grid, every wall lies within the grid and off the goal
/// cell, and every actor start lies within the grid, off the goal cell,
/// and off every wall. Together with the construction contract this pins
/// down both when construction succeeds and the invariants every
/// constructed world enjoys.
pub proof fn lemma_config_violations_empty_iff(
    walls: Seq<Position>,
    end_position: Position,
    length: usize,
    width: usize,
    initial_actor_positions: Seq<Position>,
)
    ensures
        config_violations(walls, end_position, length, width, initial_actor_positions).len() == 0
            <==> ({
            &&& end_position.in_bounds(length, width)
            &&& forall|i: int|
                0 <= i < walls.len() ==> wall_ok(#[trigger] walls[i], end_position, length, width)
            &&& forall|j: int|
                0 <= j < initial_actor_positions.len() ==> actor_ok(
                    #[trigger] initial_actor_positions[j],
                    walls,
                    end_position,
                    length,
                    width,
                )
        }),
{
    lemma_wall_violations_empty(walls, end_position, length, width);
    lemma_actor_violations_empty(initial_actor_positions, walls, end_position, length, width);
}

/// The fixed wall pattern of the default world: a 12-cell barrier that
/// separates two halves of the grid, with one gap.
pub open spec fn default_wall_layout() -> Seq<Position> {
    seq![
        Position { row: 2, col: 1 },
        Position { row: 2, col: 2 },
        Position { row: 2, col: 3 },
        Position { row: 2, col: 4 },
        Position { row: 3, col: 4 },
        Position { row: 4, col: 4 },
        Position { row: 5, col: 4 },
        Position { row: 6, col: 4 },
        Position { row: 7, col: 4 },
        Position { row: 2, col: 6 },
        Position { row: 2, col: 7 },
        Position { row: 2, col: 8 },
    ]
}

/// Every wall of the default layout lies within the 10 x 10 grid and off
/// the default goal cell, and the default actor start sits on no wall.
pub proof fn lemma_default_layout_ok()
    ensures
        forall|i: int|
            0 <= i < default_wall_layout().len() ==> wall_ok(
                #[trigger] default_wall_layout()[i],
                Position { row: 9, col: 9 },
                10,
                10,
            ),
        !default_wall_layout().contains(Position { row: 0, col: 0 }),
{
    let w = default_wall_layout();
    assert(w[0] == Position { row: 2, col: 1 });
    assert(w[1] == Position { row: 2, col: 2 });
    assert(w[2] == Position { row: 2, col: 3 });
    assert(w[3] == Position { row: 2, col: 4 });
    assert(w[4] == Position { row: 3, col: 4 });
    assert(w[5] == Position { row: 4, col: 4 });
    assert(w[6] == Position { row: 5, col: 4 });
    assert(w[7] == Position { row: 6, col: 4 });
    assert(w[8] == Position { row: 7, col: 4 });
    assert(w[9] == Position { row: 2, col: 6 });
    assert(w[10] == Position { row: 2, col: 7 });
    assert(w[11] == Position { row: 2, col: 8 });
    assert forall|i: int|
        0 <= i < w.len() implies wall_ok(#[trigger] w[i], Position { row: 9, col: 9 }, 10, 10)
            && w[i] != (Position { row: 0, col: 0 }) by {
        assert(w.len() == 12);
    }
    if w.contains(Position { row: 0, col: 0 }) {
        let i = choose|i: int| 0 <= i < w.len() && w[i] == (Position { row: 0, col: 0 });
        assert(false);
    }
}

/// A bounded 2-D grid with impassable walls, one goal cell, and the actors
/// that move on it.
pub struct GridWorldEnv {
    pub training: bool,
    pub length: usize,
    pub width: usize,
    pub wall_positions: Vec<Position>,
    pub end_position: Position,
    pub actors: Vec<Actor>,
    pub running: bool,
}

impl GridWorldEnv {
    /// The cell holds a wall.
    pub open spec fn is_wall(self, p: Position) -> bool {
        self.wall_positions@.contains(p)
    }

    /// A cell may be stepped onto exactly when it lies within the grid and
    /// holds no wall. The goal cell is open: entering it is the success
    /// condition, not a collision.
    pub open spec fn is_valid_move(self, p: Position) -> bool {
        p.in_bounds(self.length, self.width) && !self.is_wall(p)
    }

    /// The configuration invariant, established at construction and never
    /// violated afterward: the goal cell lies within the grid, every wall
    /// lies within the grid and off the goal, and every actor sits legally
    /// on the grid.
    pub open spec fn well_formed(self) -> bool {
        &&& self.end_position.in_bounds(self.length, self.width)
        &&& forall|i: int|
            0 <= i < self.wall_positions@.len() ==> (#[trigger] self.wall_positions@[i]).in_bounds(
                self.length,
                self.width,
            ) && self.wall_positions@[i] != self.end_position
        &&& forall|j: int|
            0 <= j < self.actors@.len() ==> (#[trigger] self.actors@[j]).consistent_with(self)
    }

    /// In every well-formed world the goal cell is a valid, enterable
    /// cell: it lies within the grid and holds no wall. Reaching it is the
    /// success condition, never a collision.
    pub proof fn lemma_goal_is_enterable(self)
        requires
            self.well_formed(),
        ensures
            self.is_valid_move(self.end_position),
    {
        if self.wall_positions@.contains(self.end_position) {
            let i = choose|i: int|
                0 <= i < self.wall_positions@.len() && self.wall_positions@[i]
                    == self.end_position;
            assert(self.wall_positions@[i] != self.end_position);
            assert(false);
        }
    }

    /// Decides whether a candidate cell may be stepped onto: true exactly
    /// when the cell is within grid bounds and is not a wall. Takes the
    /// world by shared reference, so repeated calls can never change it.
    pub fn validate_move(&self, new_move: Position) -> (valid: bool)
        ensures
            valid == self.is_valid_move(new_move),
    {
        if !(new_move.row < self.length && new_move.col < self.width) {
            return false;
        }
        let mut i: usize = 0;
        while i < self.wall_positions.len()
            invariant
                i <= self.wall_positions@.len(),
                forall|k: int| 0 <= k < i ==> self.wall_positions@[k] != new_move,
            decreases self.wall_positions@.len() - i,
        {
            if self.wall_positions[i] == new_move {
                return false;
            }
            i += 1;
        }
        true
    }

    /// Validating factory: replaces this world with one built from the
    /// given configuration, or rejects the configuration.
    ///
    /// Validation first checks the goal cell against the grid bounds, then
    /// runs two passes. The wall pass checks every wall against the grid
    /// bounds and the goal cell; the actor pass checks every actor start
    /// against the bounds, the goal cell, and every wall. All violations
    /// found are collected and returned together, in pass order, so
    /// construction succeeds exactly when the configuration is free of
    /// violations. A successful construction carries the inputs over
    /// unchanged, places each actor on its starting cell, and leaves the
    /// world idle.
    #[verifier::rlimit(50)]
    pub fn set_world_state(
        self,
        training: bool,
        length: usize,
        width: usize,
        wall_positions: Vec<Position>,
        end_position: Position,
        initial_actor_positions: Vec<Position>,
    ) -> (result: Result<GridWorldEnv, ConfigError>)
        ensures
            match result {
                Ok(world) => {
                    &&& config_violations(
                        wall_positions@,
                        end_position,
                        length,
                        width,
                        initial_actor_positions@,
                    ).len() == 0
                    &&& world.training == training
                    &&& world.length == length
                    &&& world.width == width
                    &&& world.wall_positions@ == wall_positions@
                    &&& world.end_position == end_position
                    &&& world.actors@.len() == initial_actor_positions@.len()
                    &&& forall|j: int|
                        0 <= j < world.actors@.len() ==> (#[trigger] world.actors@[j]).initial_position
                            == initial_actor_positions@[j] && world.actors@[j].current_position
                            == initial_actor_positions@[j]
                    &&& !world.running
                    &&& world.well_formed()
                },
                Err(err) => {
                    &&& err.violations@ == config_violations(
                        wall_positions@,
                        end_position,
                        length,
                        width,
                        initial_actor_positions@,
                    )
                    &&& err.violations@.len() > 0
                },
            },
    {
        let mut violations: Vec<Violation> = Vec::new();

        if end_position.row >= length {
            violations.push(Violation::GoalBeyondLength { goal: end_position, length });
        }
        if end_position.col >= width {
            violations.push(Violation::GoalBeyondWidth { goal: end_position, width });
        }
        proof {
            assert(violations@ =~= goal_violations(end_position, length, width));
        }

        let mut i: usize = 0;
        while i < wall_positions.len()
            invariant
                i <= wall_positions@.len(),
                violations@ == goal_violations(end_position, length, width) + wall_violations(
                    wall_positions@.subrange(0, i as int),
                    end_position,
                    length,
                    width,
                ),
            decreases wall_positions@.len() - i,
        {
            let wall = wall_positions[i];
            if wall.row >= length {
                violations.push(Violation::WallBeyondLength { wall, length });
            }
            if wall.col >= width {
                violations.push(Violation::WallBeyondWidth { wall, width });
            }
            if wall == end_position {
                violations.push(Violation::WallAtGoal { wall, goal: end_position });
            }
            proof {
                let prefix = wall_positions@.subrange(0, i as int);
                let extended = wall_positions@.subrange(0, i as int + 1);
                assert(extended.drop_last() =~= prefix);
                assert(extended.last() == wall);
                assert(violations@ =~= goal_violations(end_position, length, width)
                    + wall_violations(extended, end_position, length, width));
            }
            i += 1;
        }
        proof {
            assert(wall_positions@.subrange(0, wall_positions@.len() as int) =~= wall_positions@);
        }

        let mut j: usize = 0;
        while j < initial_actor_positions.len()
            invariant
                j <= initial_actor_positions@.len(),
                violations@ == goal_violations(end_position, length, width) + wall_violations(
                    wall_positions@,
                    end_position,
                    length,
                    width,
                ) + actor_violations(
                    initial_actor_positions@.subrange(0, j as int),
                    wall_positions@,
                    end_position,
                    length,
                    width,
                ),
            decreases initial_actor_positions@.len() - j,
        {
            let actor = initial_actor_positions[j];
            if actor.row >= length {
                violations.push(Violation::ActorBeyondLength { actor, length });
            }
            if actor.col >= width {
                violations.push(Violation::ActorBeyondWidth { actor, width });
            }
            if actor == end_position {
                violations.push(Violation::ActorAtGoal { actor, goal: end_position });
            }
            proof {
                assert(violations@ =~= goal_violations(end_position, length, width)
                    + wall_violations(wall_positions@, end_position, length, width)
                    + actor_violations(
                    initial_actor_positions@.subrange(0, j as int),
                    wall_positions@,
                    end_position,
                    length,
                    width,
                ) + (if actor.row >= length {
                    seq![Violation::ActorBeyondLength { actor, length }]
                } else {
                    Seq::empty()
                }) + (if actor.col >= width {
                    seq![Violation::ActorBeyondWidth { actor, width }]
                } else {
                    Seq::empty()
                }) + (if actor == end_position {
                    seq![Violation::ActorAtGoal { actor, goal: end_position }]
                } else {
                    Seq::empty()
                }));
            }
            let ghost before_walls = violations@;
            let mut k: usize = 0;
            while k < wall_positions.len()
                invariant
                    k <= wall_positions@.len(),
                    violations@ == before_walls + actor_wall_collisions(
                        actor,
                        wall_positions@.subrange(0, k as int),
                    ),
                decreases wall_positions@.len() - k,
            {
                let wall = wall_positions[k];
                if wall == actor {
                    violations.push(Violation::ActorOnWall { actor, wall });
                }
                proof {
                    let prefix = wall_positions@.subrange(0, k as int);
                    let extended = wall_positions@.subrange(0, k as int + 1);
                    assert(extended.drop_last() =~= prefix);
                    assert(extended.last() == wall_positions@[k as int]);
                    assert(violations@ =~= before_walls + actor_wall_collisions(actor, extended));
                }
                k += 1;
            }
            proof {
                let actors_prefix = initial_actor_positions@.subrange(0, j as int);
                let actors_extended = initial_actor_positions@.subrange(0, j as int + 1);
                assert(wall_positions@.subrange(0, wall_positions@.len() as int)
                    =~= wall_positions@);
                assert(actors_extended.drop_last() =~= actors_prefix);
                assert(actors_extended.last() == actor);
                assert(violations@ =~= goal_violations(end_position, length, width)
                    + wall_violations(wall_positions@, end_position, length, width)
                    + actor_violations(
                    actors_extended,
                    wall_positions@,
                    end_position,
                    length,
                    width,
                ));
            }
            j += 1;
        }
        proof {
            assert(initial_actor_positions@.subrange(0, initial_actor_positions@.len() as int)
                =~= initial_actor_positions@);
        }

        if violations.len() > 0 {
            return Err(ConfigError { violations });
        }

        let mut actors: Vec<Actor> = Vec::new();
        let mut a: usize = 0;
        while a < initial_actor_positions.len()
            invariant
                a <= initial_actor_positions@.len(),
                actors@.len() == a,
                forall|n: int|
                    0 <= n < a ==> (#[trigger] actors@[n]).initial_position
                        == initial_actor_positions@[n] && actors@[n].current_position
                        == initial_actor_positions@[n],
            decreases initial_actor_positions@.len() - a,
        {
            let pos = initial_actor_positions[a];
            actors.push(Actor { initial_position: pos, current_position: pos });
            a += 1;
        }

        let world = GridWorldEnv {
            training,
            length,
            width,
            wall_positions,
            end_position,
            actors,
            running: false,
        };
        proof {
            lemma_config_violations_empty_iff(
                world.wall_positions@,
                end_position,
                length,
                width,
                initial_actor_positions@,
            );
        }
        Ok(world)
    }

    /// Builds the wall pattern of the default world.
    fn default_wall_positions() -> (walls: Vec<Position>)
        ensures
            walls@ == default_wall_layout(),
    {
        let mut walls: Vec<Position> = Vec::new();
        walls.push(Position { row: 2, col: 1 });
        walls.push(Position { row: 2, col: 2 });
        walls.push(Position { row: 2, col: 3 });
        walls.push(Position { row: 2, col: 4 });
        walls.push(Position { row: 3, col: 4 });
        walls.push(Position { row: 4, col: 4 });
        walls.push(Position { row: 5, col: 4 });
        walls.push(Position { row: 6, col: 4 });
        walls.push(Position { row: 7, col: 4 });
        walls.push(Position { row: 2, col: 6 });
        walls.push(Position { row: 2, col: 7 });
        walls.push(Position { row: 2, col: 8 });
        proof {
            assert(walls@ =~= default_wall_layout());
        }
        walls
    }

    /// Marks the world as running. Only the transition from idle succeeds:
    /// the returned flag says whether this call was the one that started
    /// the episode. Nothing else about the world changes.
    pub fn try_start(&mut self) -> (started: bool)
        ensures
            started == !old(self).running,
            final(self).running,
            *final(self) == (GridWorldEnv { running: true, ..*old(self) }),
    {
        let started = !self.running;
        self.running = true;
        started
    }

    /// Marks the world as idle. Stopping is idempotent: stopping an idle
    /// world is a no-op. Nothing else about the world changes.
    pub fn stop(&mut self)
        ensures
            *final(self) == (GridWorldEnv { running: false, ..*old(self) }),
    {
        self.running = false;
    }
}

impl Default for GridWorldEnv {
    /// The default world: a 10 x 10 grid in training mode, the fixed
    /// 12-cell wall pattern, the goal in the far corner, and a single
    /// actor starting in the near corner, idle.
    fn default() -> (world: Self)
        ensures
            world.training,
            world.length == 10,
            world.width == 10,
            world.wall_positions@ == default_wall_layout(),
            world.end_position == (Position { row: 9, col: 9 }),
            world.actors@.len() == 1,
            world.actors@[0].initial_position == (Position { row: 0, col: 0 }),
            world.actors@[0].current_position == (Position { row: 0, col: 0 }),
            !world.running,
            world.well_formed(),
    {
        let start = Position { row: 0, col: 0 };
        let mut actors: Vec<Actor> = Vec::new();
        actors.push(Actor { initial_position: start, current_position: start });
        let world = GridWorldEnv {
            training: true,
            length: 10,
            width: 10,
            wall_positions: Self::default_wall_positions(),
            end_position: Position { row: 9, col: 9 },
            actors,
            running: false,
        };
        proof {
            lemma_default_layout_ok();
            assert(world.actors@[0].consistent_with(world));
        }
        world
    }
}

} // verus!
