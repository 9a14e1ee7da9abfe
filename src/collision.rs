use vstd::prelude::*;
use crate::config::{
    ALMOST_GROUND_BOTTOM, ALMOST_GROUND_TOP, FOOT_LEAD, FOOT_TRAIL, GROUND, KNOCKBACK_DISTANCE,
    KNOCKBACK_VY, LANDING_OFFSET, in_range, PROBE_BOTTOM_MARGIN, PROBE_TOP_MARGIN, UNIT,
};
use crate::entities::{GameState, Obstacle, Player, PlayerState, SoundCue, Trap};

verus! {

/// What the vertical probe found under or around the player this tick, in order of precedence.
#[derive(Debug, Clone, Copy, PartialEq, Eq, Structural)]
pub enum ProbeResult {
    /// The player is within the top-surface band of a top obstacle.
    TopSurface,
    /// The player is above an obstacle it overlaps horizontally.
    AboveObstacle,
    /// No obstacle matched and the player reached the ground line.
    Ground,
    /// No obstacle matched and nothing holds the player up.
    Airborne,
}

/// The motion state that follows a probe result.
pub open spec fn next_state(current: PlayerState, probe: ProbeResult) -> PlayerState {
    match probe {
        ProbeResult::TopSurface => PlayerState::OnObstacle,
        ProbeResult::AboveObstacle => PlayerState::InAir,
        ProbeResult::Ground => PlayerState::OnGround,
        ProbeResult::Airborne => PlayerState::InAir,
    }
}

/// The player's footprint `[x + FOOT_TRAIL, x + FOOT_LEAD]` overlaps the open span `(left, right)`.
pub open spec fn overlaps_footprint(x: int, left: int, right: int) -> bool {
    x + FOOT_LEAD > left && x + FOOT_TRAIL < right
}

/// The player at height `y` stands in the top-surface band of `o`.
pub open spec fn lands_on(o: Obstacle, x: int, y: int) -> bool {
    &&& o.active
    &&& overlaps_footprint(x, o.x_left as int, o.x_right as int)
    &&& o.y_top <= y <= o.y_bottom
    &&& o.is_top_obstacle
}

/// The player at height `y` is strictly above `o`, overlapping it horizontally.
pub open spec fn hovers_over(o: Obstacle, x: int, y: int) -> bool {
    &&& o.active
    &&& overlaps_footprint(x, o.x_left as int, o.x_right as int)
    &&& y < o.y_top
}

pub open spec fn supports(o: Obstacle, x: int, y: int) -> bool {
    lands_on(o, x, y) || hovers_over(o, x, y)
}

/// The first obstacle at index `i` or later, in storage order, that supports the player.
pub open spec fn first_support_from(obs: Seq<Obstacle>, x: int, y: int, i: int) -> Option<int>
    decreases obs.len() - i,
{
    if i < 0 || i >= obs.len() {
        None
    } else if supports(obs[i], x, y) {
        Some(i)
    } else {
        first_support_from(obs, x, y, i + 1)
    }
}

pub open spec fn first_support(obs: Seq<Obstacle>, x: int, y: int) -> Option<int> {
    first_support_from(obs, x, y, 0)
}

/// Height of the player once a jump has moved it by `vy`.
pub open spec fn risen_y(p: Player) -> int {
    if p.is_jumping { p.y + p.vy } else { p.y as int }
}

/// The outcome of the vertical probe for a player at height `y`.
pub open spec fn probe_at(obs: Seq<Obstacle>, x: int, y: int) -> ProbeResult {
    match first_support(obs, x, y) {
        Some(i) => if lands_on(obs[i], x, y) {
            ProbeResult::TopSurface
        } else {
            ProbeResult::AboveObstacle
        },
        None => if y >= GROUND {
            ProbeResult::Ground
        } else {
            ProbeResult::Airborne
        },
    }
}

/// The player after one tick of vertical physics among the obstacles `obs`.
pub open spec fn vertical_step(p: Player, obs: Seq<Obstacle>) -> Player {
    let y = risen_y(p);
    let probe = probe_at(obs, p.x as int, y);
    let state = next_state(p.state, probe);
    let p1 = Player {
        y: y as i64,
        almost_ground: ALMOST_GROUND_TOP <= y <= ALMOST_GROUND_BOTTOM,
        ..p
    };
    match probe {
        ProbeResult::TopSurface => if p.state != PlayerState::OnObstacle {
            Player {
                y: (obs[first_support(obs, p.x as int, y)->Some_0].y_bottom - LANDING_OFFSET) as i64,
                vy: 0,
                on_obstacle: true,
                on_ground: false,
                is_jumping: false,
                state,
                ..p1
            }
        } else {
            Player { on_obstacle: true, on_ground: false, state, ..p1 }
        },
        ProbeResult::AboveObstacle => Player {
            on_ground: false,
            on_obstacle: false,
            above_obstacle: true,
            is_jumping: true,
            state,
            ..p1
        },
        ProbeResult::Ground => Player {
            y: GROUND,
            vy: 0,
            on_ground: true,
            on_obstacle: false,
            is_jumping: false,
            state,
            ..p1
        },
        ProbeResult::Airborne => Player {
            on_ground: false,
            on_obstacle: false,
            above_obstacle: false,
            is_jumping: true,
            state,
            ..p1
        },
    }
}

/// The fall sound plays exactly when an airborne player reaches the ground.
pub open spec fn fall_cue(p: Player, obs: Seq<Obstacle>) -> Option<SoundCue> {
    if probe_at(obs, p.x as int, risen_y(p)) == ProbeResult::Ground && p.state == PlayerState::InAir {
        Some(SoundCue::FallMild)
    } else {
        None
    }
}

/// The centralised state transition: landing beats hovering, which beats the
/// ground, which beats falling.
pub fn transition(current: PlayerState, probe: ProbeResult) -> (r: PlayerState)
    ensures
        r == next_state(current, probe),
{
    match probe {
        ProbeResult::TopSurface => PlayerState::OnObstacle,
        ProbeResult::AboveObstacle => PlayerState::InAir,
        ProbeResult::Ground => PlayerState::OnGround,
        ProbeResult::Airborne => PlayerState::InAir,
    }
}

fn overlaps_footprint_exec(x: i64, left: i64, right: i64) -> (r: bool)
    ensures
        r == overlaps_footprint(x as int, left as int, right as int),
{
    (x as i128) + (FOOT_LEAD as i128) > (left as i128) && (x as i128) + (FOOT_TRAIL as i128) < (right as i128)
}

/// Index of the first obstacle, in storage order, that supports a player at `(x, y)`.
pub fn find_support(obstacles: &Vec<Obstacle>, x: i64, y: i64) -> (r: Option<usize>)
    ensures
        match r {
            Some(i) => i < obstacles@.len() && supports(obstacles@[i as int], x as int, y as int)
                && first_support(obstacles@, x as int, y as int) == Some(i as int),
            None => first_support(obstacles@, x as int, y as int).is_none(),
        },
{
    let mut i: usize = 0;
    while i < obstacles.len()
        invariant
            i <= obstacles@.len(),
            first_support(obstacles@, x as int, y as int) == first_support_from(obstacles@, x as int, y as int, i as int),
        decreases obstacles@.len() - i,
    {
        let o = &obstacles[i];
        if o.active && overlaps_footprint_exec(x, o.x_left, o.x_right) {
            if (o.y_top <= y && y <= o.y_bottom && o.is_top_obstacle) || y < o.y_top {
                return Some(i);
            }
        }
        i = i + 1;
    }
    None
}

fn vertical_update(p: Player, obstacles: &Vec<Obstacle>) -> (r: (Player, Option<SoundCue>))
    requires
        p.in_range(),
        forall|i: int| 0 <= i < obstacles@.len() ==> #[trigger] obstacles@[i].in_range(),
    ensures
        r.0 == vertical_step(p, obstacles@),
        r.1 == fall_cue(p, obstacles@),
{
    let y = if p.is_jumping { p.y + p.vy } else { p.y };
    let p1 = Player { y, almost_ground: ALMOST_GROUND_TOP <= y && y <= ALMOST_GROUND_BOTTOM, ..p };
    match find_support(obstacles, p.x, y) {
        Some(i) => {
            let o = &obstacles[i];
            if o.y_top <= y && y <= o.y_bottom && o.is_top_obstacle {
                let state = transition(p.state, ProbeResult::TopSurface);
                if p.state != PlayerState::OnObstacle {
                    (Player {
                        y: o.y_bottom - LANDING_OFFSET,
                        vy: 0,
                        on_obstacle: true,
                        on_ground: false,
                        is_jumping: false,
                        state,
                        ..p1
                    }, None)
                } else {
                    (Player { on_obstacle: true, on_ground: false, state, ..p1 }, None)
                }
            } else {
                let state = transition(p.state, ProbeResult::AboveObstacle);
                (Player {
                    on_ground: false,
                    on_obstacle: false,
                    above_obstacle: true,
                    is_jumping: true,
                    state,
                    ..p1
                }, None)
            }
        },
        None => {
            if y >= GROUND {
                let state = transition(p.state, ProbeResult::Ground);
                let cue = if p.state == PlayerState::InAir { Some(SoundCue::FallMild) } else { None };
                (Player {
                    y: GROUND,
                    vy: 0,
                    on_ground: true,
                    on_obstacle: false,
                    is_jumping: false,
                    state,
                    ..p1
                }, cue)
            } else {
                let state = transition(p.state, ProbeResult::Airborne);
                (Player {
                    on_ground: false,
                    on_obstacle: false,
                    above_obstacle: false,
                    is_jumping: true,
                    state,
                    ..p1
                }, None)
            }
        },
    }
}

/// One tick of vertical physics: moves a jumping player, then resolves it
/// against the current map's obstacles, or failing those, the ground.
/// Returns the fall sound when an airborne player lands on the ground.
pub fn jump_obstacles(game_state: &mut GameState) -> (cue: Option<SoundCue>)
    requires
        old(game_state).in_range(),
    ensures
        *final(game_state) == (GameState {
            player: vertical_step(old(game_state).player, old(game_state).current_map().obstacles@),
            ..*old(game_state)
        }),
        cue == fall_cue(old(game_state).player, old(game_state).current_map().obstacles@),
{
    let (p, cue) = vertical_update(game_state.player, &game_state.all_maps[game_state.current_map_index].obstacles);
    game_state.player = p;
    cue
}

/// Landing: a player that is not yet on an obstacle and enters the top-surface
/// band of the first obstacle that holds it is, after one tick, on that obstacle,
/// at rest vertically, `LANDING_OFFSET` above the obstacle's bottom line.
pub proof fn lemma_landing(p: Player, obs: Seq<Obstacle>, i: int)
    requires
        0 <= i < obs.len(),
        obs[i].in_range(),
        first_support(obs, p.x as int, risen_y(p)) == Some(i),
        lands_on(obs[i], p.x as int, risen_y(p)),
        p.state != PlayerState::OnObstacle,
    ensures
        vertical_step(p, obs).state == PlayerState::OnObstacle,
        vertical_step(p, obs).vy == 0,
        vertical_step(p, obs).y == obs[i].y_bottom - LANDING_OFFSET,
{
}

proof fn lemma_nothing_supports(obs: Seq<Obstacle>, x: int, y: int, i: int)
    requires
        forall|j: int| 0 <= j < obs.len() ==> !(#[trigger] obs[j]).active,
    ensures
        first_support_from(obs, x, y, i).is_none(),
    decreases obs.len() - i,
{
    if 0 <= i < obs.len() {
        lemma_nothing_supports(obs, x, y, i + 1);
    }
}

/// Ground: with no active obstacle, a player at or below the ground line that is
/// not rising stands on the ground after one tick, at rest vertically.
pub proof fn lemma_ground(p: Player, obs: Seq<Obstacle>)
    requires
        forall|j: int| 0 <= j < obs.len() ==> !(#[trigger] obs[j]).active,
        p.y >= GROUND,
        p.is_jumping ==> p.vy >= 0,
        in_range(p.y) && in_range(p.vy),
    ensures
        vertical_step(p, obs).y == GROUND,
        vertical_step(p, obs).vy == 0,
        vertical_step(p, obs).state == PlayerState::OnGround,
        vertical_step(p, obs).on_ground,
{
    lemma_nothing_supports(obs, p.x as int, risen_y(p), 0);
}

/// Where the player's forward edge stands: `width / 2.5` past `x` facing left,
/// `width / 1.5` past `x` facing right, `width` being the pixel width of the
/// current animation frame.
pub open spec fn leading_edge(p: Player, frame_widths: Seq<u32>, is_left: bool) -> int {
    if is_left {
        p.x + frame_widths[p.left_increment as int] * UNIT * 2 / 5
    } else {
        p.x + frame_widths[p.right_increment as int] * UNIT * 2 / 3
    }
}

/// The forward edge `edge` of a player at height `y` runs into `o`.
pub open spec fn blocks(o: Obstacle, edge: int, y: int) -> bool {
    &&& o.active
    &&& o.x_left < edge < o.x_right
    &&& o.y_top + PROBE_TOP_MARGIN <= y <= o.y_bottom + PROBE_BOTTOM_MARGIN
}

/// The first obstacle at index `i` or later, in storage order, that blocks the player.
pub open spec fn first_block_from(obs: Seq<Obstacle>, edge: int, y: int, i: int) -> Option<int>
    decreases obs.len() - i,
{
    if i < 0 || i >= obs.len() {
        None
    } else if blocks(obs[i], edge, y) {
        Some(i)
    } else {
        first_block_from(obs, edge, y, i + 1)
    }
}

/// The forward probe: whether the player's leading edge runs into an active
/// obstacle, and the index of the first such obstacle in storage order.
pub fn check_collision(obstacles: &Vec<Obstacle>, frame_widths: &Vec<u32>, player: &Player, is_left: bool) -> (r: (bool, Option<usize>))
    requires
        is_left ==> player.left_increment < frame_widths@.len(),
        !is_left ==> player.right_increment < frame_widths@.len(),
    ensures
        r.0 == r.1.is_some(),
        match r.1 {
            Some(i) => first_block_from(obstacles@, leading_edge(*player, frame_widths@, is_left), player.y as int, 0)
                == Some(i as int),
            None => first_block_from(obstacles@, leading_edge(*player, frame_widths@, is_left), player.y as int, 0).is_none(),
        },
{
    let edge: i128 = if is_left {
        (player.x as i128) + (frame_widths[player.left_increment] as i128) * (UNIT as i128) * 2 / 5
    } else {
        (player.x as i128) + (frame_widths[player.right_increment] as i128) * (UNIT as i128) * 2 / 3
    };
    let ghost e = leading_edge(*player, frame_widths@, is_left);
    assert(edge == e);
    let y = player.y as i128;
    let mut i: usize = 0;
    while i < obstacles.len()
        invariant
            i <= obstacles@.len(),
            edge == e,
            e == leading_edge(*player, frame_widths@, is_left),
            y == player.y,
            first_block_from(obstacles@, e, y as int, 0) == first_block_from(obstacles@, e, y as int, i as int),
        decreases obstacles@.len() - i,
    {
        let o = &obstacles[i];
        if o.active && (o.x_left as i128) < edge && edge < (o.x_right as i128)
            && (o.y_top as i128) + (PROBE_TOP_MARGIN as i128) <= y
            && y <= (o.y_bottom as i128) + (PROBE_BOTTOM_MARGIN as i128) {
            assert(blocks(obstacles@[i as int], e, y as int));
            return (true, Some(i));
        }
        i = i + 1;
    }
    (false, None)
}

/// A trap touches a player at `(x, y)`.
pub open spec fn trap_hits(t: Trap, x: int, y: int) -> bool {
    &&& t.active
    &&& overlaps_footprint(x, t.x_left as int, t.x_right as int)
    &&& t.y_top <= y <= t.y_bottom
}

/// The first trap at index `i` or later, in storage order, that touches the player.
pub open spec fn first_hit_from(traps: Seq<Trap>, x: int, y: int, i: int) -> Option<int>
    decreases traps.len() - i,
{
    if i < 0 || i >= traps.len() {
        None
    } else if trap_hits(traps[i], x, y) {
        Some(i)
    } else {
        first_hit_from(traps, x, y, i + 1)
    }
}

pub open spec fn first_hit(traps: Seq<Trap>, p: Player) -> Option<int> {
    first_hit_from(traps, p.x as int, p.y as int, 0)
}

/// The player after trap contact. A player that has lost is left alone; otherwise
/// the first trap that touches it takes one health point, knocks it back behind
/// the trap's left edge and sends it down, and a player left without health has lost.
pub open spec fn trap_step(p: Player, traps: Seq<Trap>) -> Player {
    if p.game_over {
        p
    } else {
        match first_hit(traps, p) {
            None => p,
            Some(i) => Player {
                health: (p.health - 1) as u8,
                x: (traps[i].x_left - KNOCKBACK_DISTANCE) as i64,
                vy: KNOCKBACK_VY,
                game_over: p.health - 1 == 0,
                ..p
            },
        }
    }
}

/// Whether this tick's trap check applies a hit.
pub open spec fn trap_applies(p: Player, traps: Seq<Trap>) -> bool {
    !p.game_over && first_hit(traps, p).is_some()
}

/// Index of the first trap, in storage order, that touches a player at `(x, y)`.
pub fn find_trap_hit(traps: &Vec<Trap>, x: i64, y: i64) -> (r: Option<usize>)
    ensures
        match r {
            Some(i) => i < traps@.len() && first_hit_from(traps@, x as int, y as int, 0) == Some(i as int),
            None => first_hit_from(traps@, x as int, y as int, 0).is_none(),
        },
{
    let mut i: usize = 0;
    while i < traps.len()
        invariant
            i <= traps@.len(),
            first_hit_from(traps@, x as int, y as int, 0) == first_hit_from(traps@, x as int, y as int, i as int),
        decreases traps@.len() - i,
    {
        let t = &traps[i];
        if t.active && overlaps_footprint_exec(x, t.x_left, t.x_right) && t.y_top <= y && y <= t.y_bottom {
            return Some(i);
        }
        i = i + 1;
    }
    None
}

/// Applies at most one trap hit per tick from the current map's traps.
pub struct CheckTrapCollision;

impl CheckTrapCollision {
    pub fn execute(&self, game_state: &mut GameState)
        requires
            old(game_state).wf(),
        ensures
            *final(game_state) == (GameState {
                player: trap_step(old(game_state).player, old(game_state).current_map().traps@),
                layer_0_index: if trap_applies(old(game_state).player, old(game_state).current_map().traps@) {
                    1
                } else {
                    old(game_state).layer_0_index
                },
                ..*old(game_state)
            }),
    {
        if game_state.player.game_over {
            return;
        }
        let hit = find_trap_hit(&game_state.all_maps[game_state.current_map_index].traps, game_state.player.x, game_state.player.y);
        if let Some(i) = hit {
            let t = game_state.all_maps[game_state.current_map_index].traps[i];
            assert(game_state.current_map().traps@[i as int].in_range());
            let health = game_state.player.health - 1;
            game_state.player = Player {
                health,
                x: t.x_left - KNOCKBACK_DISTANCE,
                vy: KNOCKBACK_VY,
                game_over: health == 0,
                ..game_state.player
            };
            game_state.layer_0_index = 1;
        }
    }
}

/// Health never rises, a player without health has lost, and once lost the
/// game stays lost and health stays put, whatever traps the player touches.
pub proof fn lemma_health_latch(p: Player, traps: Seq<Trap>)
    requires
        p.health_ok(),
    ensures
        trap_step(p, traps).health_ok(),
        trap_step(p, traps).health <= p.health,
        p.game_over ==> trap_step(p, traps).game_over && trap_step(p, traps).health == p.health,
        p.health == 0 ==> trap_step(p, traps).game_over && trap_step(p, traps).health == 0,
{
}

/// Vertical physics leaves health and the game-over latch alone.
pub proof fn lemma_vertical_keeps_health(p: Player, obs: Seq<Obstacle>)
    ensures
        vertical_step(p, obs).health == p.health,
        vertical_step(p, obs).game_over == p.game_over,
{
}

} // verus!
