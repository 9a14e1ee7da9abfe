use vstd::prelude::*;
use crate::config::{
    in_range, ACCELERATION, ACCEL_DAMPING_PERCENT, FRICTION_PERCENT, MAX_VELOCITY, REST_EPSILON,
};
use crate::entities::{Direction, GameState, Player};

verus! {

/// `v * percent / 100`, rounded toward zero.
pub open spec fn scaled_toward_zero(v: int, percent: int) -> int {
    if v >= 0 {
        v * percent / 100
    } else {
        -((-v) * percent / 100)
    }
}

pub open spec fn abs(v: int) -> int {
    if v >= 0 { v } else { -v }
}

/// Horizontal speed after one tick of acceleration.
///
/// A detected obstacle stops the player outright. Otherwise the speed gains
/// `ACCELERATION`, is clamped to `MAX_VELOCITY`, and, when not clamped, is damped
/// and clamped once more.
pub open spec fn accelerated_vx(vx: int, blocked: bool) -> int {
    if blocked {
        0
    } else {
        let v = vx + ACCELERATION;
        if v > MAX_VELOCITY {
            MAX_VELOCITY as int
        } else {
            let d = scaled_toward_zero(v, ACCEL_DAMPING_PERCENT as int);
            if d > MAX_VELOCITY { MAX_VELOCITY as int } else { d }
        }
    }
}

/// Horizontal speed after one idle tick: damped, and snapped to zero once slow.
pub open spec fn friction_vx(vx: int) -> int {
    let d = scaled_toward_zero(vx, FRICTION_PERCENT as int);
    if -REST_EPSILON < d < REST_EPSILON { 0 } else { d }
}

/// Horizontal speed after `n` idle ticks.
pub open spec fn friction_after(vx: int, n: nat) -> int
    decreases n,
{
    if n == 0 {
        vx
    } else {
        friction_after(friction_vx(vx), (n - 1) as nat)
    }
}

/// The player after one position update: `x` moves by `vx` against or along the
/// facing, `y` moves by `vy`.
pub open spec fn moved(p: Player) -> Player {
    Player {
        x: (if p.direction == Direction::Left { p.x - p.vx } else { p.x + p.vx }) as i64,
        y: (p.y + p.vy) as i64,
        ..p
    }
}

fn scale_toward_zero(v: i64, percent: i64) -> (r: i64)
    requires
        0 <= percent <= 100,
    ensures
        r == scaled_toward_zero(v as int, percent as int),
        abs(r as int) <= abs(v as int),
{
    let w = v as i128;
    let p = percent as i128;
    if w >= 0 {
        assert(0 <= w * p <= w * 100) by (nonlinear_arith)
            requires
                0 <= w,
                0 <= p <= 100,
        ;
        ((w * p) / 100) as i64
    } else {
        let m = -w;
        assert(0 <= m * p <= m * 100) by (nonlinear_arith)
            requires
                0 <= m,
                0 <= p <= 100,
        ;
        (-((m * p) / 100)) as i64
    }
}

/// Applies one tick of acceleration to the player's horizontal speed.
pub fn accelerate(p: &mut Player)
    requires
        in_range(old(p).vx),
    ensures
        *final(p) == (Player { vx: accelerated_vx(old(p).vx as int, old(p).obstacle_detected) as i64, ..*old(p) }),
        final(p).vx <= MAX_VELOCITY,
        -MAX_VELOCITY <= old(p).vx ==> -MAX_VELOCITY <= final(p).vx,
        0 <= old(p).vx ==> 0 <= final(p).vx,
        in_range(final(p).vx),
{
    let mut vx = p.vx + ACCELERATION;
    if p.obstacle_detected {
        vx = 0;
    } else {
        if vx > MAX_VELOCITY {
            vx = MAX_VELOCITY;
        } else {
            vx = scale_toward_zero(vx, ACCEL_DAMPING_PERCENT);
            if vx > MAX_VELOCITY {
                vx = MAX_VELOCITY;
            }
        }
    }
    p.vx = vx;
}

/// One tick of acceleration in the facing direction.
pub fn increase_velocity(game_state: &mut GameState)
    requires
        in_range(old(game_state).player.vx),
    ensures
        *final(game_state) == (GameState {
            player: Player {
                vx: accelerated_vx(old(game_state).player.vx as int, old(game_state).player.obstacle_detected) as i64,
                ..old(game_state).player
            },
            ..*old(game_state)
        }),
        old(game_state).player.obstacle_detected ==> final(game_state).player.vx == 0,
        final(game_state).player.vx <= MAX_VELOCITY,
        -MAX_VELOCITY <= old(game_state).player.vx ==> -MAX_VELOCITY <= final(game_state).player.vx,
        0 <= old(game_state).player.vx ==> 0 <= final(game_state).player.vx,
        in_range(final(game_state).player.vx),
{
    accelerate(&mut game_state.player);
}

/// One idle tick: friction slows the player and stops it below `REST_EPSILON`.
pub fn decrease_velocity(game_state: &mut GameState)
    ensures
        *final(game_state) == (GameState {
            player: Player { vx: friction_vx(old(game_state).player.vx as int) as i64, ..old(game_state).player },
            ..*old(game_state)
        }),
        abs(final(game_state).player.vx as int) <= abs(old(game_state).player.vx as int),
        -REST_EPSILON < final(game_state).player.vx < REST_EPSILON ==> final(game_state).player.vx == 0,
{
    let mut vx = scale_toward_zero(game_state.player.vx, FRICTION_PERCENT);
    if -REST_EPSILON < vx && vx < REST_EPSILON {
        vx = 0;
    }
    game_state.player.vx = vx;
}

/// Moves the player by its velocity.
pub struct ModifyPosition;

impl ModifyPosition {
    pub fn execute(&self, game_state: &mut GameState)
        requires
            old(game_state).player.in_range(),
        ensures
            *final(game_state) == (GameState { player: moved(old(game_state).player), ..*old(game_state) }),
    {
        if game_state.player.direction == Direction::Left {
            game_state.player.x = game_state.player.x - game_state.player.vx;
        } else {
            game_state.player.x = game_state.player.x + game_state.player.vx;
        }
        game_state.player.y = game_state.player.y + game_state.player.vy;
    }
}

/// Both integrator steps keep the horizontal speed within `MAX_VELOCITY` in magnitude.
pub proof fn lemma_velocity_stays_bounded(vx: int, blocked: bool)
    requires
        -MAX_VELOCITY <= vx <= MAX_VELOCITY,
    ensures
        -MAX_VELOCITY <= accelerated_vx(vx, blocked) <= MAX_VELOCITY,
        -MAX_VELOCITY <= friction_vx(vx) <= MAX_VELOCITY,
        blocked ==> accelerated_vx(vx, blocked) == 0,
{
    let v = vx + ACCELERATION;
    if v >= 0 {
        assert(0 <= v * 98 / 100 <= v) by (nonlinear_arith)
            requires
                v >= 0,
        ;
    } else {
        assert(0 <= (-v) * 98 / 100 <= -v) by (nonlinear_arith)
            requires
                v < 0,
        ;
    }
    if vx >= 0 {
        assert(0 <= vx * 95 / 100 <= vx) by (nonlinear_arith)
            requires
                vx >= 0,
        ;
    } else {
        assert(0 <= (-vx) * 95 / 100 <= -vx) by (nonlinear_arith)
            requires
                vx < 0,
        ;
    }
}

/// Idle friction keeps a resting player at rest.
pub proof fn lemma_rest_stays_rest(n: nat)
    ensures
        friction_after(0, n) == 0,
    decreases n,
{
    if n > 0 {
        assert(friction_vx(0) == 0);
        lemma_rest_stays_rest((n - 1) as nat);
    }
}

/// One idle tick either stops the player or takes at least 5 off its speed.
proof fn lemma_friction_step(vx: int)
    requires
        vx != 0,
    ensures
        friction_vx(vx) == 0 || abs(friction_vx(vx)) <= abs(vx) - 5,
{
    let a = abs(vx);
    let q = a * 95 / 100;
    assert(scaled_toward_zero(vx, 95) == q || scaled_toward_zero(vx, 95) == -q);
    if q >= REST_EPSILON {
        assert(a - q >= 5) by (nonlinear_arith)
            requires
                q == a * 95 / 100,
                q >= 100,
        ;
    }
}

/// Idle friction brings any speed to exactly zero within `|vx| / 5 + 1` ticks, and
/// it stays zero afterwards.
pub proof fn lemma_friction_comes_to_rest(vx: int, n: nat)
    requires
        n >= abs(vx) / 5 + 1,
    ensures
        friction_after(vx, n) == 0,
    decreases n,
{
    if vx == 0 {
        lemma_rest_stays_rest(n);
    } else {
        lemma_friction_step(vx);
        let next = friction_vx(vx);
        if next == 0 {
            lemma_rest_stays_rest((n - 1) as nat);
        } else {
            assert((n - 1) as nat >= abs(next) / 5 + 1);
            lemma_friction_comes_to_rest(next, (n - 1) as nat);
        }
    }
}

} // verus!
