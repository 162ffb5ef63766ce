use vstd::prelude::*;

use crate::clock::TickClock;
use crate::geom::{Direction, Position};
use crate::ghosts;
use crate::ghosts::GhostAgent;
use crate::maze;
use crate::mode::Mode;
use crate::player;
use crate::player::{InputSnapshot, Player};

verus! {

/// Default period of the player-move gate, in milliseconds.
pub const PLAYER_PERIOD_MS: u32 = 50;

/// Default period of the ghost-move gate, in milliseconds.
pub const GHOST_PERIOD_MS: u32 = 150;

/// Default period of the mode clock, in milliseconds.
pub const MODE_PERIOD_MS: u32 = 10000;

/// The four ghosts as they stand when the game starts: red in front of the
/// pen exit, the other three on the pen floor, each with its own scatter
/// corner and already heading for it.
pub open spec fn initial_ghosts() -> Seq<GhostAgent> {
    seq![
        GhostAgent {
            direction: Direction::Left,
            position: Position { x: 13, y: 11 },
            target: Position { x: 1, y: 1 },
            scatter_target: Position { x: 1, y: 1 },
        },
        GhostAgent {
            direction: Direction::Up,
            position: Position { x: 13, y: 14 },
            target: Position { x: 25, y: 1 },
            scatter_target: Position { x: 25, y: 1 },
        },
        GhostAgent {
            direction: Direction::Down,
            position: Position { x: 12, y: 14 },
            target: Position { x: 1, y: 29 },
            scatter_target: Position { x: 1, y: 29 },
        },
        GhostAgent {
            direction: Direction::Down,
            position: Position { x: 14, y: 14 },
            target: Position { x: 25, y: 29 },
            scatter_target: Position { x: 25, y: 29 },
        },
    ]
}

/// The whole game state, advanced tick by tick. One logical tick advances
/// the three clocks, then runs in order: the mode step, the player movement
/// with consumption, and the ghost turns.
pub struct Simulation {
    pub player: Player,
    pub ghosts: Vec<GhostAgent>,
    pub pellets: Vec<Position>,
    pub energizers: Vec<Position>,
    pub mode: Mode,
    pub player_clock: TickClock,
    pub ghost_clock: TickClock,
    pub mode_clock: TickClock,
}

impl Simulation {
    /// Everything the simulation keeps up between ticks: the player stands
    /// on a player-walkable tile, each of the four ghosts stands on a
    /// ghost-walkable tile with on-grid targets, the clocks are well formed,
    /// and the pellet and energizer sets are duplicate-free subsets of the
    /// cells that held one at game start.
    pub open spec fn wf(self) -> bool {
        &&& maze::player_walkable(self.player.position.x as int, self.player.position.y as int)
        &&& maze::in_bounds(self.player.last.x as int, self.player.last.y as int)
        &&& self.ghosts@.len() == 4
        &&& (forall|i: int| 0 <= i < 4 ==> (#[trigger] self.ghosts@[i]).wf())
        &&& self.player_clock.wf()
        &&& self.ghost_clock.wf()
        &&& self.mode_clock.wf()
        &&& self.pellets@.no_duplicates()
        &&& self.pellets@.to_set() <= maze::pellet_seed()
        &&& self.energizers@.no_duplicates()
        &&& self.energizers@.to_set() <= maze::energizer_seed()
    }

    /// Builds the starting state with the given gate periods: the player at
    /// its spawn facing right, the four ghosts at theirs, mode scatter, and
    /// a pellet on every path, intersection and no-up tile and an energizer
    /// on every energizer tile.
    pub fn with_periods(player_period_ms: u32, ghost_period_ms: u32, mode_period_ms: u32) -> (s:
        Simulation)
        requires
            player_period_ms > 0,
            ghost_period_ms > 0,
            mode_period_ms > 0,
        ensures
            s.wf(),
            s.player == Player::initial_spec(),
            s.ghosts@ == initial_ghosts(),
            s.pellets@.to_set() == maze::pellet_seed(),
            s.energizers@.to_set() == maze::energizer_seed(),
            s.mode == Mode::Scatter,
            s.player_clock == (TickClock { period_ms: player_period_ms, acc_ms: 0 }),
            s.ghost_clock == (TickClock { period_ms: ghost_period_ms, acc_ms: 0 }),
            s.mode_clock == (TickClock { period_ms: mode_period_ms, acc_ms: 0 }),
    {
        let mut ghosts: Vec<GhostAgent> = Vec::new();
        ghosts.push(
            GhostAgent {
                direction: Direction::Left,
                position: Position { x: 13, y: 11 },
                target: Position { x: 1, y: 1 },
                scatter_target: Position { x: 1, y: 1 },
            },
        );
        ghosts.push(
            GhostAgent {
                direction: Direction::Up,
                position: Position { x: 13, y: 14 },
                target: Position { x: 25, y: 1 },
                scatter_target: Position { x: 25, y: 1 },
            },
        );
        ghosts.push(
            GhostAgent {
                direction: Direction::Down,
                position: Position { x: 12, y: 14 },
                target: Position { x: 1, y: 29 },
                scatter_target: Position { x: 1, y: 29 },
            },
        );
        ghosts.push(
            GhostAgent {
                direction: Direction::Down,
                position: Position { x: 14, y: 14 },
                target: Position { x: 25, y: 29 },
                scatter_target: Position { x: 25, y: 29 },
            },
        );
        proof {
            assert(ghosts@ =~= initial_ghosts());
            assert(maze::tile_spec(13, 23) == maze::PATH);
            assert(maze::tile_spec(13, 11) == maze::PATH);
            assert(maze::tile_spec(13, 14) == maze::PEN);
            assert(maze::tile_spec(12, 14) == maze::PEN);
            assert(maze::tile_spec(14, 14) == maze::PEN);
        }
        Simulation {
            player: Player::initial(),
            ghosts,
            pellets: maze::initial_pellets(),
            energizers: maze::initial_energizers(),
            mode: Mode::Scatter,
            player_clock: TickClock::new(player_period_ms),
            ghost_clock: TickClock::new(ghost_period_ms),
            mode_clock: TickClock::new(mode_period_ms),
        }
    }

    /// Builds the starting state with the default gate periods.
    pub fn new() -> (s: Simulation)
        ensures
            s.wf(),
            s.player == Player::initial_spec(),
            s.ghosts@ == initial_ghosts(),
            s.pellets@.to_set() == maze::pellet_seed(),
            s.energizers@.to_set() == maze::energizer_seed(),
            s.mode == Mode::Scatter,
            s.player_clock == (TickClock { period_ms: PLAYER_PERIOD_MS, acc_ms: 0 }),
            s.ghost_clock == (TickClock { period_ms: GHOST_PERIOD_MS, acc_ms: 0 }),
            s.mode_clock == (TickClock { period_ms: MODE_PERIOD_MS, acc_ms: 0 }),
    {
        Simulation::with_periods(PLAYER_PERIOD_MS, GHOST_PERIOD_MS, MODE_PERIOD_MS)
    }

    /// One logical tick, driven by the elapsed wall-clock time and the keys
    /// pressed this frame. The contract pins the whole transition: how each
    /// clock advances, that the mode steps exactly when the mode clock
    /// fires, that the player moves and eats exactly when the player clock
    /// fires, and that each ghost takes its turn exactly when the ghost
    /// clock fires. Pellet and energizer sets never grow, and an entry
    /// leaves only on a tick where it equals the tile the player just left.
    pub fn tick(&mut self, delta_ms: u32, input: InputSnapshot)
        requires
            old(self).wf(),
        ensures
            final(self).wf(),
            final(self).player_clock == old(self).player_clock.advanced(delta_ms),
            final(self).ghost_clock == old(self).ghost_clock.advanced(delta_ms),
            final(self).mode_clock == old(self).mode_clock.advanced(delta_ms),
            final(self).mode == (if old(self).mode_clock.fires(delta_ms) {
                old(self).mode.next_spec()
            } else {
                old(self).mode
            }),
            final(self).player == (if old(self).player_clock.fires(delta_ms) {
                player::stepped(old(self).player, input)
            } else {
                old(self).player
            }),
            final(self).pellets@.to_set() == (if old(self).player_clock.fires(delta_ms) {
                old(self).pellets@.to_set().remove(final(self).player.last)
            } else {
                old(self).pellets@.to_set()
            }),
            final(self).energizers@.to_set() == (if old(self).player_clock.fires(delta_ms) {
                old(self).energizers@.to_set().remove(final(self).player.last)
            } else {
                old(self).energizers@.to_set()
            }),
            final(self).pellets@.to_set() <= old(self).pellets@.to_set(),
            final(self).energizers@.to_set() <= old(self).energizers@.to_set(),
            forall|q: Position|
                old(self).pellets@.to_set().contains(q) && !final(self).pellets@.to_set().contains(
                    q,
                ) ==> old(self).player_clock.fires(delta_ms) && q == final(self).player.last,
            forall|q: Position|
                old(self).energizers@.to_set().contains(q)
                    && !final(self).energizers@.to_set().contains(q)
                    ==> old(self).player_clock.fires(delta_ms) && q == final(self).player.last,
            final(self).ghosts@.len() == 4,
            forall|i: int|
                0 <= i < 4 ==> final(self).ghosts@[i] == (if old(self).ghost_clock.fires(
                    delta_ms,
                ) {
                    ghosts::stepped(
                        old(self).ghosts@[i],
                        final(self).mode,
                        final(self).player.position,
                    )
                } else {
                    old(self).ghosts@[i]
                }),
    {
        let mode_fired = self.mode_clock.tick(delta_ms);
        let player_fired = self.player_clock.tick(delta_ms);
        let ghost_fired = self.ghost_clock.tick(delta_ms);

        if mode_fired {
            self.mode = self.mode.next();
        }

        if player_fired {
            proof {
                player::lemma_step_position_walkable(self.player.position, input);
            }
            self.player.step(input);
            let eaten = self.player.last;
            self.pellets = without_position(&self.pellets, eaten);
            self.energizers = without_position(&self.energizers, eaten);
        }

        if ghost_fired {
            let m = self.mode;
            let ppos = self.player.position;
            advance_ghosts(&mut self.ghosts, m, ppos);
        }
    }
}

/// One ghost turn for each ghost in order, all against the same mode and
/// player position.
fn advance_ghosts(agents: &mut Vec<GhostAgent>, m: Mode, ppos: Position)
    requires
        old(agents)@.len() == 4,
        forall|j: int| 0 <= j < 4 ==> (#[trigger] old(agents)@[j]).wf(),
        maze::in_bounds(ppos.x as int, ppos.y as int),
    ensures
        final(agents)@.len() == 4,
        forall|j: int|
            0 <= j < 4 ==> #[trigger] final(agents)@[j] == ghosts::stepped(
                old(agents)@[j],
                m,
                ppos,
            ) && final(agents)@[j].wf(),
{
    let mut i: usize = 0;
    while i < 4
        invariant
            0 <= i <= 4,
            agents@.len() == 4,
            maze::in_bounds(ppos.x as int, ppos.y as int),
            forall|j: int| i <= j < 4 ==> #[trigger] agents@[j] == old(agents)@[j],
            forall|j: int| i <= j < 4 ==> (#[trigger] agents@[j]).wf(),
            forall|j: int|
                0 <= j < i ==> #[trigger] agents@[j] == ghosts::stepped(old(agents)@[j], m, ppos)
                    && agents@[j].wf(),
        decreases 4 - i,
    {
        let mut g: GhostAgent = agents[i];
        g.advance(m, ppos);
        agents.set(i, g);
        i = i + 1;
    }
}

/// In every well-formed state no agent occupies a wall tile: the player and
/// all four ghosts stand on non-wall tiles. `new` establishes
/// well-formedness and `tick` keeps it, so this holds at every tick.
pub proof fn lemma_no_agent_on_wall(s: Simulation)
    requires
        s.wf(),
    ensures
        maze::tile_spec(s.player.position.x as int, s.player.position.y as int) != maze::WALL,
        forall|i: int|
            0 <= i < 4 ==> maze::tile_spec(
                (#[trigger] s.ghosts@[i]).position.x as int,
                s.ghosts@[i].position.y as int,
            ) != maze::WALL,
{
}

/// After a tick in which the ghost gate fired while the mode stands at
/// scatter, every ghost's target equals its own scatter corner. The
/// premises are exactly what `Simulation::tick` ensures of such a tick.
pub proof fn lemma_scatter_tick_targets(
    pre: Simulation,
    post: Simulation,
    delta_ms: u32,
    input: InputSnapshot,
)
    requires
        pre.ghosts@.len() == 4,
        post.ghosts@.len() == 4,
        post.mode == Mode::Scatter,
        pre.ghost_clock.fires(delta_ms),
        forall|i: int|
            0 <= i < 4 ==> #[trigger] post.ghosts@[i] == ghosts::stepped(
                pre.ghosts@[i],
                post.mode,
                post.player.position,
            ),
    ensures
        forall|i: int|
            0 <= i < 4 ==> (#[trigger] post.ghosts@[i]).target == pre.ghosts@[i].scatter_target,
{
}

/// The sequence `v` with every entry equal to `p` taken out, in order.
fn without_position(v: &Vec<Position>, p: Position) -> (out: Vec<Position>)
    requires
        v@.no_duplicates(),
    ensures
        out@.no_duplicates(),
        out@.to_set() == v@.to_set().remove(p),
        forall|q: Position| #[trigger] out@.contains(q) <==> v@.contains(q) && q != p,
{
    let mut out: Vec<Position> = Vec::new();
    let mut i: usize = 0;
    while i < v.len()
        invariant
            0 <= i <= v@.len(),
            v@.no_duplicates(),
            out@.no_duplicates(),
            forall|q: Position|
                #[trigger] out@.contains(q) <==> v@.subrange(0, i as int).contains(q) && q != p,
        decreases v@.len() - i,
    {
        let c = v[i];
        if !(c.x == p.x && c.y == p.y) {
            proof {
                assert(v@.subrange(0, i as int) =~= v@.subrange(0, i + 1).drop_last());
                assert(!v@.subrange(0, i as int).contains(c));
                assert(!out@.contains(c));
            }
            let ghost pre = out@;
            out.push(c);
            proof {
                broadcast use vstd::seq_lib::lemma_seq_contains_after_push;

                assert forall|a: int, b: int|
                    0 <= a < out@.len() && 0 <= b < out@.len() && a != b implies out@[a]
                    != out@[b] by {
                    if a < pre.len() && b < pre.len() {
                    } else if a == pre.len() {
                        assert(pre.contains(pre[b]));
                    } else {
                        assert(pre.contains(pre[a]));
                    }
                }
            }
        }
        proof {
            assert(v@.subrange(0, i + 1).drop_last() == v@.subrange(0, i as int));
            assert(v@.subrange(0, i + 1).last() == v@[i as int]);
            assert forall|q: Position| #[trigger] out@.contains(q) implies (v@.subrange(
                0,
                i + 1,
            ).contains(q) && q != p) by {
                if out@.contains(q) {
                    assert(v@.subrange(0, i + 1)[v@.subrange(0, i + 1).len() - 1] == v@[i as int]);
                }
            }
            assert forall|q: Position| v@.subrange(0, i + 1).contains(q) && q != p implies (
            #[trigger] out@.contains(q)) by {
                let k = choose|k: int| 0 <= k < i + 1 && #[trigger] v@.subrange(0, i + 1)[k] == q;
                if k < i {
                    assert(v@.subrange(0, i as int)[k] == q);
                }
            }
        }
        i = i + 1;
    }
    proof {
        assert(v@.subrange(0, v@.len() as int) =~= v@);
        assert(out@.to_set() =~= v@.to_set().remove(p));
    }
    out
}

} // verus!
