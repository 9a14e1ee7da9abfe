use vstd::prelude::*;
use crate::config::{in_range, FRAMES_PER_STEP, LEFT_FIRST_FRAME, LEFT_LAST_FRAME, MAX_HEALTH, RIGHT_FIRST_FRAME, RIGHT_LAST_FRAME};

verus! {

/// Facing of the player.
#[derive(Debug, Clone, Copy, PartialEq, Eq, Structural)]
pub enum Direction {
    Right,
    Left,
}

/// The keys the game listens to.
#[derive(Debug, Clone, Copy, PartialEq, Eq, Structural)]
pub enum LegalKey {
    Space,
    D,
    A,
    X,
}

/// Discrete motion mode of the player.
///
/// Only `OnGround`, `InAir` and `OnObstacle` are reached by the simulation; the
/// others are reserved for the presentation layer.
#[derive(Debug, Clone, Copy, PartialEq, Eq, Structural)]
pub enum PlayerState {
    OnGround,
    AlmostGround,
    InAir,
    Walking,
    Attacking,
    Idle,
    OnObstacle,
}

/// A sound the simulation asks the audio layer to play.
#[derive(Debug, Clone, Copy, PartialEq, Eq, Structural)]
pub enum SoundCue {
    /// The next footstep of the walk cycle.
    Footstep,
    Jump,
    Kick,
    /// The mild fall-impact sound, played for `FALL_MILD_DURATION_MS`.
    FallMild,
}

/// Index of an obstacle within its map's obstacle list.
#[derive(Debug, Clone, Copy, PartialEq, Eq, Structural)]
pub struct ObstacleId(pub usize);

/// A solid box. Coordinates grow rightwards and downwards, so `y_top < y_bottom`.
#[derive(Debug, Clone, Copy)]
pub struct Obstacle {
    pub id: ObstacleId,
    pub x_left: i64,
    pub x_right: i64,
    pub y_top: i64,
    pub y_bottom: i64,
    pub velocity_y: i64,
    pub falling: bool,
    /// An inactive obstacle has been removed: every probe skips it.
    pub active: bool,
    pub durability: u8,
    pub is_bottom_obstacle: bool,
    pub is_top_obstacle: bool,
    pub is_leftmost_obstacle: bool,
    pub is_rightmost_obstacle: bool,
    pub left_obstacle: Option<ObstacleId>,
    pub right_obstacle: Option<ObstacleId>,
    pub over_obstacle: Option<ObstacleId>,
    pub under_obstacle: Option<ObstacleId>,
}

/// A hazard box that damages the player on contact.
#[derive(Debug, Clone, Copy)]
pub struct Trap {
    pub x_left: i64,
    pub x_right: i64,
    pub y_top: i64,
    pub y_bottom: i64,
    pub active: bool,
}

/// One level: its obstacles, traps, size and the player's entry points.
#[derive(Debug, Clone)]
pub struct GameMap {
    pub id: usize,
    pub obstacles: Vec<Obstacle>,
    pub traps: Vec<Trap>,
    pub width: usize,
    pub height: usize,
    pub starting_x: i64,
    pub starting_y: i64,
    pub transition_x: i64,
    pub transition_y: i64,
}

#[derive(Debug, Clone, Copy)]
pub struct Player {
    pub x: i64,
    pub y: i64,
    pub vx: i64,
    pub vy: i64,
    pub on_ground: bool,
    pub on_obstacle: bool,
    pub last_key: Option<LegalKey>,
    pub left_increment: usize,
    pub right_increment: usize,
    pub direction: Direction,
    pub right_increment_frame_count: usize,
    pub left_increment_frame_count: usize,
    pub kick_start_time: u32,
    pub is_kicking: bool,
    pub kick_frame: usize,
    pub kick_frame_timer: usize,
    pub almost_ground: bool,
    pub is_jumping: bool,
    pub state: PlayerState,
    pub above_obstacle: bool,
    pub game_over: bool,
    pub obstacle_detected: bool,
    pub health: u8,
    pub invincible: bool,
}

/// The simulated world: the player, every map, and which map is current.
#[derive(Debug, Clone)]
pub struct GameState {
    pub player: Player,
    pub all_maps: Vec<GameMap>,
    pub current_map_index: usize,
    pub footstep_index: usize,
    pub footstep_active: bool,
    /// Environmental damage cue, raised on a trap hit for the renderer.
    pub layer_0_index: usize,
}

impl Obstacle {
    pub open spec fn in_range(&self) -> bool {
        &&& in_range(self.x_left)
        &&& in_range(self.x_right)
        &&& in_range(self.y_top)
        &&& in_range(self.y_bottom)
    }
}

impl Trap {
    pub open spec fn in_range(&self) -> bool {
        &&& in_range(self.x_left)
        &&& in_range(self.x_right)
        &&& in_range(self.y_top)
        &&& in_range(self.y_bottom)
    }
}

/// `link` names an obstacle of `obs` whose link back, read by `back`, names `i`.
pub open spec fn link_returns(obs: Seq<Obstacle>, i: int, link: Option<ObstacleId>, back: spec_fn(Obstacle) -> Option<ObstacleId>) -> bool {
    match link {
        None => true,
        Some(j) => j.0 < obs.len() && back(obs[j.0 as int]) == Some(ObstacleId(i as usize)),
    }
}

/// Obstacle `i` carries its own index as id, and each of its four links names an
/// obstacle of the same map that links back to it on the opposite side.
pub open spec fn obstacle_links_ok(obs: Seq<Obstacle>, i: int) -> bool {
    &&& obs[i].id == ObstacleId(i as usize)
    &&& link_returns(obs, i, obs[i].left_obstacle, |o: Obstacle| o.right_obstacle)
    &&& link_returns(obs, i, obs[i].right_obstacle, |o: Obstacle| o.left_obstacle)
    &&& link_returns(obs, i, obs[i].over_obstacle, |o: Obstacle| o.under_obstacle)
    &&& link_returns(obs, i, obs[i].under_obstacle, |o: Obstacle| o.over_obstacle)
}

pub open spec fn links_consistent(obs: Seq<Obstacle>) -> bool {
    forall|i: int| 0 <= i < obs.len() ==> #[trigger] obstacle_links_ok(obs, i)
}

fn points_back(obstacles: &Vec<Obstacle>, i: usize, link: Option<ObstacleId>, side: u8) -> (r: bool)
    requires
        i < obstacles@.len(),
        side < 4,
    ensures
        r == link_returns(obstacles@, i as int, link, |o: Obstacle| back_link(o, side)),
{
    match link {
        None => true,
        Some(j) => {
            if j.0 >= obstacles.len() {
                false
            } else {
                let back = match side {
                    0 => obstacles[j.0].right_obstacle,
                    1 => obstacles[j.0].left_obstacle,
                    2 => obstacles[j.0].under_obstacle,
                    _ => obstacles[j.0].over_obstacle,
                };
                match back {
                    Some(k) => k.0 == i,
                    None => false,
                }
            }
        },
    }
}

/// The link that answers a link on `side` (0 left, 1 right, 2 over, 3 under).
pub open spec fn back_link(o: Obstacle, side: u8) -> Option<ObstacleId> {
    if side == 0 {
        o.right_obstacle
    } else if side == 1 {
        o.left_obstacle
    } else if side == 2 {
        o.under_obstacle
    } else {
        o.over_obstacle
    }
}

impl GameMap {
    /// Checks the obstacle grid when a map is loaded: every obstacle's id is its
    /// index, and every neighbour link resolves within the map and is returned by
    /// the neighbour on the opposite side.
    pub fn adjacency_is_consistent(&self) -> (r: bool)
        ensures
            r == links_consistent(self.obstacles@),
    {
        let mut i: usize = 0;
        while i < self.obstacles.len()
            invariant
                i <= self.obstacles@.len(),
                forall|k: int| 0 <= k < i ==> #[trigger] obstacle_links_ok(self.obstacles@, k),
            decreases self.obstacles@.len() - i,
        {
            let o = &self.obstacles[i];
            let ok = o.id.0 == i
                && points_back(&self.obstacles, i, o.left_obstacle, 0)
                && points_back(&self.obstacles, i, o.right_obstacle, 1)
                && points_back(&self.obstacles, i, o.over_obstacle, 2)
                && points_back(&self.obstacles, i, o.under_obstacle, 3);
            proof {
                let obs = self.obstacles@;
                let ii = i as int;
                assert(link_returns(obs, ii, o.left_obstacle, |q: Obstacle| back_link(q, 0)) == link_returns(obs, ii, o.left_obstacle, |q: Obstacle| q.right_obstacle));
                assert(link_returns(obs, ii, o.right_obstacle, |q: Obstacle| back_link(q, 1)) == link_returns(obs, ii, o.right_obstacle, |q: Obstacle| q.left_obstacle));
                assert(link_returns(obs, ii, o.over_obstacle, |q: Obstacle| back_link(q, 2)) == link_returns(obs, ii, o.over_obstacle, |q: Obstacle| q.under_obstacle));
                assert(link_returns(obs, ii, o.under_obstacle, |q: Obstacle| back_link(q, 3)) == link_returns(obs, ii, o.under_obstacle, |q: Obstacle| q.over_obstacle));
            }
            if !ok {
                assert(!obstacle_links_ok(self.obstacles@, i as int));
                return false;
            }
            i = i + 1;
        }
        true
    }

    /// Every box of the map lies within the accepted coordinate range.
    pub open spec fn in_range(&self) -> bool {
        &&& forall|i: int| 0 <= i < self.obstacles@.len() ==> #[trigger] self.obstacles@[i].in_range()
        &&& forall|i: int| 0 <= i < self.traps@.len() ==> #[trigger] self.traps@[i].in_range()
    }
}

impl Player {
    /// Health stays within `0..=MAX_HEALTH`, and a player without health has lost.
    pub open spec fn health_ok(&self) -> bool {
        &&& self.health <= MAX_HEALTH
        &&& (self.health == 0 ==> self.game_over)
    }

    /// The walk animation counters are within their cycles.
    pub open spec fn frames_ok(&self) -> bool {
        &&& self.right_increment <= RIGHT_LAST_FRAME
        &&& LEFT_FIRST_FRAME <= self.left_increment <= LEFT_LAST_FRAME
        &&& self.right_increment_frame_count < FRAMES_PER_STEP
        &&& self.left_increment_frame_count < FRAMES_PER_STEP
    }

    pub open spec fn in_range(&self) -> bool {
        &&& in_range(self.x)
        &&& in_range(self.y)
        &&& in_range(self.vx)
        &&& in_range(self.vy)
    }

    pub open spec fn wf(&self) -> bool {
        &&& self.health_ok()
        &&& self.frames_ok()
        &&& self.in_range()
    }

    /// A player standing at `(x, y)`, facing right, at rest, with full health.
    pub fn new(x: i64, y: i64) -> (p: Player)
        ensures
            p.x == x,
            p.y == y,
            p.vx == 0,
            p.vy == 0,
            !p.on_ground,
            !p.on_obstacle,
            p.last_key.is_none(),
            p.left_increment == LEFT_FIRST_FRAME,
            p.right_increment == RIGHT_FIRST_FRAME,
            p.direction == Direction::Right,
            p.right_increment_frame_count == 0,
            p.left_increment_frame_count == 0,
            p.kick_start_time == 0,
            !p.is_kicking,
            p.kick_frame == 0,
            p.kick_frame_timer == 0,
            !p.almost_ground,
            !p.is_jumping,
            p.state == PlayerState::OnGround,
            !p.above_obstacle,
            !p.game_over,
            !p.obstacle_detected,
            p.health == MAX_HEALTH,
            !p.invincible,
            in_range(x) && in_range(y) ==> p.wf(),
    {
        Player {
            x,
            y,
            vx: 0,
            vy: 0,
            on_ground: false,
            on_obstacle: false,
            last_key: None,
            left_increment: LEFT_FIRST_FRAME,
            right_increment: RIGHT_FIRST_FRAME,
            direction: Direction::Right,
            right_increment_frame_count: 0,
            left_increment_frame_count: 0,
            kick_start_time: 0,
            is_kicking: false,
            kick_frame: 0,
            kick_frame_timer: 0,
            almost_ground: false,
            is_jumping: false,
            state: PlayerState::OnGround,
            above_obstacle: false,
            game_over: false,
            obstacle_detected: false,
            health: MAX_HEALTH,
            invincible: false,
        }
    }
}

impl GameState {
    /// The current map exists, and the player and the current map's boxes are within range.
    pub open spec fn in_range(&self) -> bool {
        &&& self.current_map_index < self.all_maps@.len()
        &&& self.player.in_range()
        &&& self.all_maps@[self.current_map_index as int].in_range()
    }

    /// In range, and the player's own invariant holds.
    pub open spec fn wf(&self) -> bool {
        &&& self.in_range()
        &&& self.player.wf()
    }

    pub open spec fn current_map(&self) -> GameMap {
        self.all_maps@[self.current_map_index as int]
    }
}

} // verus!
