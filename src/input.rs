use vstd::prelude::*;
use crate::config::{
    FRAMES_PER_STEP, JUMP_VELOCITY, LEFT_FIRST_FRAME, LEFT_LAST_FRAME, MAX_VELOCITY,
    RIGHT_FIRST_FRAME, RIGHT_LAST_FRAME,
};
use crate::entities::{Direction, GameState, LegalKey, Player, PlayerState, SoundCue};
use crate::movement::{
    accelerate, accelerated_vx, decrease_velocity, friction_vx, lemma_velocity_stays_bounded,
};

verus! {

/// The behaviour bound to a key.
#[derive(Debug, Clone, Copy, PartialEq, Eq, Structural)]
pub enum Action {
    Jump,
    MoveRight,
    MoveLeft,
    Kick,
}

/// The key bindings: at most one action per legal key.
#[derive(Debug, Clone, Copy)]
pub struct InputLogicMap {
    pub space: Option<Action>,
    pub d: Option<Action>,
    pub a: Option<Action>,
    pub x: Option<Action>,
}

impl InputLogicMap {
    pub open spec fn action_for(&self, key: LegalKey) -> Option<Action> {
        match key {
            LegalKey::Space => self.space,
            LegalKey::D => self.d,
            LegalKey::A => self.a,
            LegalKey::X => self.x,
        }
    }

    /// The action bound to `key`, if any.
    pub fn get(&self, key: LegalKey) -> (r: Option<Action>)
        ensures
            r == self.action_for(key),
    {
        match key {
            LegalKey::Space => self.space,
            LegalKey::D => self.d,
            LegalKey::A => self.a,
            LegalKey::X => self.x,
        }
    }
}

/// Which legal keys are held down this tick.
#[derive(Debug, Clone, Copy)]
pub struct HeldKeys {
    pub space: bool,
    pub d: bool,
    pub a: bool,
    pub x: bool,
}

impl HeldKeys {
    pub open spec fn holds(&self, key: LegalKey) -> bool {
        match key {
            LegalKey::Space => self.space,
            LegalKey::D => self.d,
            LegalKey::A => self.a,
            LegalKey::X => self.x,
        }
    }

    pub open spec fn any(&self) -> bool {
        self.space || self.d || self.a || self.x
    }
}

/// The standard bindings: Space jumps, D moves right, A moves left, X kicks.
pub fn initialize_input_logic_map() -> (m: InputLogicMap)
    ensures
        m.action_for(LegalKey::Space) == Some(Action::Jump),
        m.action_for(LegalKey::D) == Some(Action::MoveRight),
        m.action_for(LegalKey::A) == Some(Action::MoveLeft),
        m.action_for(LegalKey::X) == Some(Action::Kick),
{
    InputLogicMap {
        space: Some(Action::Jump),
        d: Some(Action::MoveRight),
        a: Some(Action::MoveLeft),
        x: Some(Action::Kick),
    }
}

/// The walk animation after one more tick of walking right: every
/// `FRAMES_PER_STEP` ticks the frame advances, wrapping from the last right-facing
/// frame to the first.
pub open spec fn walk_right(p: Player) -> Player {
    let count = p.right_increment_frame_count + 1;
    if count >= FRAMES_PER_STEP {
        Player {
            right_increment_frame_count: 0,
            right_increment: if p.right_increment == RIGHT_LAST_FRAME {
                RIGHT_FIRST_FRAME
            } else {
                (p.right_increment + 1) as usize
            },
            ..p
        }
    } else {
        Player { right_increment_frame_count: count as usize, ..p }
    }
}

/// The walk animation after one more tick of walking left, over the left-facing frames.
pub open spec fn walk_left(p: Player) -> Player {
    let count = p.left_increment_frame_count + 1;
    if count >= FRAMES_PER_STEP {
        Player {
            left_increment_frame_count: 0,
            left_increment: if p.left_increment == LEFT_LAST_FRAME {
                LEFT_FIRST_FRAME
            } else {
                (p.left_increment + 1) as usize
            },
            ..p
        }
    } else {
        Player { left_increment_frame_count: count as usize, ..p }
    }
}

/// The player after one tick of an action.
pub open spec fn action_step(p: Player, a: Action) -> Player {
    match a {
        Action::MoveRight => walk_right(
            Player {
                vx: accelerated_vx(p.vx as int, p.obstacle_detected) as i64,
                last_key: Some(LegalKey::D),
                direction: Direction::Right,
                ..p
            },
        ),
        Action::MoveLeft => walk_left(
            Player {
                vx: accelerated_vx(p.vx as int, p.obstacle_detected) as i64,
                last_key: Some(LegalKey::A),
                direction: Direction::Left,
                ..p
            },
        ),
        Action::Jump => if p.is_jumping {
            Player { last_key: Some(LegalKey::Space), ..p }
        } else {
            Player {
                vy: JUMP_VELOCITY,
                is_jumping: true,
                on_ground: false,
                on_obstacle: false,
                state: PlayerState::InAir,
                last_key: Some(LegalKey::Space),
                ..p
            }
        },
        Action::Kick => if p.is_kicking {
            Player { last_key: Some(LegalKey::X), ..p }
        } else {
            Player { is_kicking: true, kick_frame: 0, kick_frame_timer: 0, last_key: Some(LegalKey::X), ..p }
        },
    }
}

/// The sound an action asks for: a footstep while footsteps are on, a jump sound
/// on take-off, a kick sound when a kick starts.
pub open spec fn action_cue(p: Player, footstep_active: bool, a: Action) -> Option<SoundCue> {
    match a {
        Action::MoveRight | Action::MoveLeft => if footstep_active {
            Some(SoundCue::Footstep)
        } else {
            None
        },
        Action::Jump => if p.is_jumping { None } else { Some(SoundCue::Jump) },
        Action::Kick => if p.is_kicking { None } else { Some(SoundCue::Kick) },
    }
}

pub open spec fn cue_seq(c: Option<SoundCue>) -> Seq<SoundCue> {
    match c {
        Some(s) => seq![s],
        None => Seq::empty(),
    }
}

/// The player after a held or released key: a held key runs its action unless
/// the player is invincible; an unbound key does nothing.
pub open spec fn key_step(p: Player, commands: InputLogicMap, key: LegalKey, held: bool) -> Player {
    if held && !p.invincible {
        match commands.action_for(key) {
            Some(a) => action_step(p, a),
            None => p,
        }
    } else {
        p
    }
}

pub open spec fn key_cues(p: Player, footstep_active: bool, commands: InputLogicMap, key: LegalKey, held: bool) -> Seq<SoundCue> {
    if held && !p.invincible {
        match commands.action_for(key) {
            Some(a) => cue_seq(action_cue(p, footstep_active, a)),
            None => Seq::empty(),
        }
    } else {
        Seq::empty()
    }
}

/// The player after one tick of input: Space, D, A and X are handled in this
/// order; when none is held, idle friction applies instead.
pub open spec fn input_step(p: Player, commands: InputLogicMap, held: HeldKeys) -> Player {
    let p1 = key_step(p, commands, LegalKey::Space, held.space);
    let p2 = key_step(p1, commands, LegalKey::D, held.d);
    let p3 = key_step(p2, commands, LegalKey::A, held.a);
    let p4 = key_step(p3, commands, LegalKey::X, held.x);
    if held.any() {
        p4
    } else {
        Player { vx: friction_vx(p.vx as int) as i64, ..p }
    }
}

/// The sounds asked for during one tick of input, in the order they were asked.
pub open spec fn input_cues(p: Player, footstep_active: bool, commands: InputLogicMap, held: HeldKeys) -> Seq<SoundCue> {
    let p1 = key_step(p, commands, LegalKey::Space, held.space);
    let p2 = key_step(p1, commands, LegalKey::D, held.d);
    let p3 = key_step(p2, commands, LegalKey::A, held.a);
    key_cues(p, footstep_active, commands, LegalKey::Space, held.space)
        + key_cues(p1, footstep_active, commands, LegalKey::D, held.d)
        + key_cues(p2, footstep_active, commands, LegalKey::A, held.a)
        + key_cues(p3, footstep_active, commands, LegalKey::X, held.x)
}

fn advance_right_frame(p: &mut Player)
    requires
        old(p).frames_ok(),
    ensures
        *final(p) == walk_right(*old(p)),
        final(p).frames_ok(),
{
    p.right_increment_frame_count = p.right_increment_frame_count + 1;
    if p.right_increment_frame_count >= FRAMES_PER_STEP {
        p.right_increment_frame_count = 0;
        if p.right_increment == RIGHT_LAST_FRAME {
            p.right_increment = RIGHT_FIRST_FRAME;
        } else {
            p.right_increment = p.right_increment + 1;
        }
    }
}

fn advance_left_frame(p: &mut Player)
    requires
        old(p).frames_ok(),
    ensures
        *final(p) == walk_left(*old(p)),
        final(p).frames_ok(),
{
    p.left_increment_frame_count = p.left_increment_frame_count + 1;
    if p.left_increment_frame_count >= FRAMES_PER_STEP {
        p.left_increment_frame_count = 0;
        if p.left_increment == LEFT_LAST_FRAME {
            p.left_increment = LEFT_FIRST_FRAME;
        } else {
            p.left_increment = p.left_increment + 1;
        }
    }
}

fn move_right(p: Player) -> (r: Player)
    requires
        p.wf(),
    ensures
        r == action_step(p, Action::MoveRight),
        r.wf(),
{
    let mut q = p;
    accelerate(&mut q);
    q.last_key = Some(LegalKey::D);
    q.direction = Direction::Right;
    advance_right_frame(&mut q);
    q
}

fn move_left(p: Player) -> (r: Player)
    requires
        p.wf(),
    ensures
        r == action_step(p, Action::MoveLeft),
        r.wf(),
{
    let mut q = p;
    accelerate(&mut q);
    q.last_key = Some(LegalKey::A);
    q.direction = Direction::Left;
    advance_left_frame(&mut q);
    q
}

/// Walking right: accelerate, face right, advance the walk animation, and ask
/// for a footstep while footsteps are on.
pub struct MoveRight;

impl MoveRight {
    pub fn execute(&self, game_state: &mut GameState) -> (cue: Option<SoundCue>)
        requires
            old(game_state).player.wf(),
        ensures
            *final(game_state) == (GameState {
                player: action_step(old(game_state).player, Action::MoveRight),
                ..*old(game_state)
            }),
            cue == action_cue(old(game_state).player, old(game_state).footstep_active, Action::MoveRight),
            final(game_state).player.wf(),
    {
        game_state.player = move_right(game_state.player);
        if game_state.footstep_active {
            Some(SoundCue::Footstep)
        } else {
            None
        }
    }
}

/// One tick of `a` on player `p`; returns the new player and the sound asked for.
pub fn apply_action(p: Player, footstep_active: bool, a: Action) -> (r: (Player, Option<SoundCue>))
    requires
        p.wf(),
    ensures
        r.0 == action_step(p, a),
        r.1 == action_cue(p, footstep_active, a),
        r.0.wf(),
{
    match a {
        Action::MoveRight => (move_right(p), if footstep_active { Some(SoundCue::Footstep) } else { None }),
        Action::MoveLeft => (move_left(p), if footstep_active { Some(SoundCue::Footstep) } else { None }),
        Action::Jump => {
            if p.is_jumping {
                (Player { last_key: Some(LegalKey::Space), ..p }, None)
            } else {
                (Player {
                    vy: JUMP_VELOCITY,
                    is_jumping: true,
                    on_ground: false,
                    on_obstacle: false,
                    state: PlayerState::InAir,
                    last_key: Some(LegalKey::Space),
                    ..p
                }, Some(SoundCue::Jump))
            }
        },
        Action::Kick => {
            if p.is_kicking {
                (Player { last_key: Some(LegalKey::X), ..p }, None)
            } else {
                (Player { is_kicking: true, kick_frame: 0, kick_frame_timer: 0, last_key: Some(LegalKey::X), ..p }, Some(SoundCue::Kick))
            }
        },
    }
}

fn handle_key(p: Player, footstep_active: bool, commands: &InputLogicMap, key: LegalKey, held: bool, cues: &mut Vec<SoundCue>) -> (r: Player)
    requires
        p.wf(),
    ensures
        r == key_step(p, *commands, key, held),
        final(cues)@ == old(cues)@ + key_cues(p, footstep_active, *commands, key, held),
        r.wf(),
        r.invincible == p.invincible,
{
    if held && !p.invincible {
        match commands.get(key) {
            Some(a) => {
                let (q, cue) = apply_action(p, footstep_active, a);
                if let Some(c) = cue {
                    cues.push(c);
                } else {
                    assert(cue_seq(cue) =~= Seq::empty());
                }
                proof {
                    assert(old(cues)@ + cue_seq(cue) =~= cues@);
                }
                q
            },
            None => {
                assert(old(cues)@ + Seq::<SoundCue>::empty() =~= cues@);
                p
            },
        }
    } else {
        assert(old(cues)@ + Seq::<SoundCue>::empty() =~= cues@);
        p
    }
}

/// One tick of input. Each held key, in the order Space, D, A, X, runs its bound
/// action unless the player is invincible; when no key is held, idle friction
/// slows the player instead. Returns the sounds asked for, in order.
pub fn handle_user_input(game_state: &mut GameState, commands: &InputLogicMap, held: &HeldKeys) -> (cues: Vec<SoundCue>)
    requires
        old(game_state).player.wf(),
    ensures
        *final(game_state) == (GameState {
            player: input_step(old(game_state).player, *commands, *held),
            ..*old(game_state)
        }),
        cues@ == input_cues(old(game_state).player, old(game_state).footstep_active, *commands, *held),
{
    let mut cues: Vec<SoundCue> = Vec::new();
    let fa = game_state.footstep_active;
    let p0 = game_state.player;
    let p1 = handle_key(p0, fa, commands, LegalKey::Space, held.space, &mut cues);
    let p2 = handle_key(p1, fa, commands, LegalKey::D, held.d, &mut cues);
    let p3 = handle_key(p2, fa, commands, LegalKey::A, held.a, &mut cues);
    let p4 = handle_key(p3, fa, commands, LegalKey::X, held.x, &mut cues);
    assert(cues@ =~= input_cues(p0, fa, *commands, *held));
    if held.space || held.d || held.a || held.x {
        game_state.player = p4;
    } else {
        decrease_velocity(game_state);
    }
    cues
}

proof fn lemma_action_bounded(p: Player, a: Action)
    requires
        -MAX_VELOCITY <= p.vx <= MAX_VELOCITY,
    ensures
        -MAX_VELOCITY <= action_step(p, a).vx <= MAX_VELOCITY,
        action_step(p, a).health == p.health,
        action_step(p, a).game_over == p.game_over,
        action_step(p, a).invincible == p.invincible,
{
    lemma_velocity_stays_bounded(p.vx as int, p.obstacle_detected);
}

proof fn lemma_key_bounded(p: Player, commands: InputLogicMap, key: LegalKey, held: bool)
    requires
        -MAX_VELOCITY <= p.vx <= MAX_VELOCITY,
    ensures
        -MAX_VELOCITY <= key_step(p, commands, key, held).vx <= MAX_VELOCITY,
        key_step(p, commands, key, held).health == p.health,
        key_step(p, commands, key, held).game_over == p.game_over,
        key_step(p, commands, key, held).invincible == p.invincible,
{
    if let Some(a) = commands.action_for(key) {
        lemma_action_bounded(p, a);
    }
}

/// A tick of input keeps the horizontal speed within `MAX_VELOCITY` in magnitude,
/// and never touches health or the game-over latch.
pub proof fn lemma_input_bounded(p: Player, commands: InputLogicMap, held: HeldKeys)
    requires
        -MAX_VELOCITY <= p.vx <= MAX_VELOCITY,
    ensures
        -MAX_VELOCITY <= input_step(p, commands, held).vx <= MAX_VELOCITY,
        input_step(p, commands, held).health == p.health,
        input_step(p, commands, held).game_over == p.game_over,
{
    let p1 = key_step(p, commands, LegalKey::Space, held.space);
    let p2 = key_step(p1, commands, LegalKey::D, held.d);
    let p3 = key_step(p2, commands, LegalKey::A, held.a);
    lemma_key_bounded(p, commands, LegalKey::Space, held.space);
    lemma_key_bounded(p1, commands, LegalKey::D, held.d);
    lemma_key_bounded(p2, commands, LegalKey::A, held.a);
    lemma_key_bounded(p3, commands, LegalKey::X, held.x);
    lemma_velocity_stays_bounded(p.vx as int, false);
}

} // verus!
